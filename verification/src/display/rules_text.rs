//! The rules text of a card: its text tokens as a string, and the explanations of its keywords.
use vstd::prelude::*;
use vstd::string::StringExecFns;

use crate::card_definition::{DamageWord, Keyword, NumericOperator, Sentence, TextToken};
use crate::text::{decimal, spec_decimal};

verus! {

/// The glyphs of the icon font that rules text uses.
#[derive(Debug, Clone)]
pub struct TextIcons {
    pub mana: String,
    pub action: String,
    pub trigger: String,
    pub arrow: String,
    pub non_breaking_space: String,
}

/// The kinds of keyword that rules text explains, in the order in which explanations are shown.
#[derive(PartialEq, Eq, Structural, Hash, Debug, Copy, Clone)]
pub enum KeywordKind {
    Play,
    Dawn,
    Dusk,
    Score,
    Combat,
    Encounter,
    Unveil,
    SuccessfulRaid,
    Store,
    DealDamage,
    InnerRoom,
    Breach,
    LevelUp,
    Trap,
    Construct,
}

/// Every keyword kind, in order.
pub open spec fn all_kinds() -> Seq<KeywordKind> {
    seq![
        KeywordKind::Play,
        KeywordKind::Dawn,
        KeywordKind::Dusk,
        KeywordKind::Score,
        KeywordKind::Combat,
        KeywordKind::Encounter,
        KeywordKind::Unveil,
        KeywordKind::SuccessfulRaid,
        KeywordKind::Store,
        KeywordKind::DealDamage,
        KeywordKind::InnerRoom,
        KeywordKind::Breach,
        KeywordKind::LevelUp,
        KeywordKind::Trap,
        KeywordKind::Construct,
    ]
}

fn kind_at(index: usize) -> (result: KeywordKind)
    requires
        index < 15,
    ensures
        result == all_kinds()[index as int],
{
    match index {
        0 => KeywordKind::Play,
        1 => KeywordKind::Dawn,
        2 => KeywordKind::Dusk,
        3 => KeywordKind::Score,
        4 => KeywordKind::Combat,
        5 => KeywordKind::Encounter,
        6 => KeywordKind::Unveil,
        7 => KeywordKind::SuccessfulRaid,
        8 => KeywordKind::Store,
        9 => KeywordKind::DealDamage,
        10 => KeywordKind::InnerRoom,
        11 => KeywordKind::Breach,
        12 => KeywordKind::LevelUp,
        13 => KeywordKind::Trap,
        _ => KeywordKind::Construct,
    }
}

/// The kinds of `keywords`, each once, in order.
pub open spec fn sorted_distinct(keywords: Seq<KeywordKind>) -> Seq<KeywordKind> {
    all_kinds().filter(|k: KeywordKind| keywords.contains(k))
}

/// The explanation of a keyword kind.
pub open spec fn explanation(kind: KeywordKind, icons: TextIcons) -> Seq<char> {
    match kind {
        KeywordKind::Play => "<b>Play:</b> Triggers when this card enters the arena."@,
        KeywordKind::Dawn => "<b>Dawn:</b> Triggers at the start of the Champion's turn."@,
        KeywordKind::Dusk => "<b>Dusk:</b> Triggers at the start of the Overlord's turn."@,
        KeywordKind::Score => "<b>Score:</b> Triggers when the Overlord scores this card."@,
        KeywordKind::Combat => "<b>Combat:</b> Triggers if this minion is not defeated during a raid."@,
        KeywordKind::Encounter => "<b>Encounter:</b> Triggers when this minion is approached during a raid."@,
        KeywordKind::Unveil => "<b>Unveil:</b> Pay cost and turn face up (if able)"@,
        KeywordKind::SuccessfulRaid => "<b>Successful Raid:</b> Triggers after the access phase of a raid."@,
        KeywordKind::Store => "<b>Store:</b> Place "@ + icons.mana@ + " on this card to take later."@,
        KeywordKind::DealDamage => "<b>Damage:</b> Causes the Champion to discard cards at random."@,
        KeywordKind::InnerRoom => "<b>Inner Room:</b> The Sanctum, Vault or Crypts."@,
        KeywordKind::Breach => "<b>Breach:</b> Allows this weapon to bypass some amount of Shield."@,
        KeywordKind::LevelUp => "<b>Level Up:</b> This card gets level counters when its room is leveled up."@,
        KeywordKind::Trap => "<b>Trap:</b> Triggers when this card is accessed during a raid."@,
        KeywordKind::Construct => "<b>Construct:</b> Goes to discard pile when defeated. Damage with any weapon."@,
    }
}

fn explain(kind: KeywordKind, icons: &TextIcons) -> (result: String)
    ensures
        result@ == explanation(kind, *icons),
{
    match kind {
        KeywordKind::Play => String::from_str("<b>Play:</b> Triggers when this card enters the arena."),
        KeywordKind::Dawn => String::from_str("<b>Dawn:</b> Triggers at the start of the Champion's turn."),
        KeywordKind::Dusk => String::from_str("<b>Dusk:</b> Triggers at the start of the Overlord's turn."),
        KeywordKind::Score => String::from_str("<b>Score:</b> Triggers when the Overlord scores this card."),
        KeywordKind::Combat => String::from_str(
            "<b>Combat:</b> Triggers if this minion is not defeated during a raid.",
        ),
        KeywordKind::Encounter => String::from_str(
            "<b>Encounter:</b> Triggers when this minion is approached during a raid.",
        ),
        KeywordKind::Unveil => String::from_str("<b>Unveil:</b> Pay cost and turn face up (if able)"),
        KeywordKind::SuccessfulRaid => String::from_str(
            "<b>Successful Raid:</b> Triggers after the access phase of a raid.",
        ),
        KeywordKind::Store => {
            let mut text = String::from_str("<b>Store:</b> Place ");
            text.append(icons.mana.as_str());
            text.append(" on this card to take later.");
            text
        },
        KeywordKind::DealDamage => String::from_str(
            "<b>Damage:</b> Causes the Champion to discard cards at random.",
        ),
        KeywordKind::InnerRoom => String::from_str("<b>Inner Room:</b> The Sanctum, Vault or Crypts."),
        KeywordKind::Breach => String::from_str(
            "<b>Breach:</b> Allows this weapon to bypass some amount of Shield.",
        ),
        KeywordKind::LevelUp => String::from_str(
            "<b>Level Up:</b> This card gets level counters when its room is leveled up.",
        ),
        KeywordKind::Trap => String::from_str("<b>Trap:</b> Triggers when this card is accessed during a raid."),
        KeywordKind::Construct => String::from_str(
            "<b>Construct:</b> Goes to discard pile when defeated. Damage with any weapon.",
        ),
    }
}

/// The explanations of `kinds`, in order.
pub open spec fn explanations(kinds: Seq<KeywordKind>, icons: TextIcons) -> Seq<Seq<char>> {
    kinds.map_values(|k: KeywordKind| explanation(k, icons))
}

fn contains_kind(keywords: &Vec<KeywordKind>, kind: KeywordKind) -> (result: bool)
    ensures
        result == keywords@.contains(kind),
{
    let mut i: usize = 0;
    while i < keywords.len()
        invariant
            i <= keywords.len(),
            forall|j: int| 0 <= j < i ==> keywords@[j] != kind,
        decreases keywords.len() - i,
    {
        if keywords[i] == kind {
            return true;
        }
        i += 1;
    }
    false
}

/// Sorts `keywords` and removes repeats, then adds the explanation of each to `output`.
pub fn process_keywords(keywords: &mut Vec<KeywordKind>, output: &mut Vec<String>, icons: &TextIcons)
    ensures
        final(keywords)@ == sorted_distinct(old(keywords)@),
        final(output)@.map_values(|s: String| s@) == old(output)@.map_values(|s: String| s@) + explanations(
            final(keywords)@,
            *icons,
        ),
{
    let ghost given = keywords@;
    let mut sorted: Vec<KeywordKind> = Vec::new();
    let mut i: usize = 0;
    assert(all_kinds().len() == 15);
    while i < 15
        invariant
            i <= 15,
            keywords@ == given,
            all_kinds().len() == 15,
            sorted@ == all_kinds().subrange(0, i as int).filter(|k: KeywordKind| given.contains(k)),
        decreases 15 - i,
    {
        let kind = kind_at(i);
        proof {
            all_kinds().subrange(0, i as int).lemma_filter_push(kind, |k: KeywordKind| given.contains(k));
            assert(all_kinds().subrange(0, i + 1) =~= all_kinds().subrange(0, i as int).push(kind));
        }
        if contains_kind(keywords, kind) {
            sorted.push(kind);
        }
        i += 1;
    }
    assert(all_kinds().subrange(0, 15) =~= all_kinds());
    *keywords = sorted;
    let ghost before = output@.map_values(|s: String| s@);
    let mut j: usize = 0;
    while j < keywords.len()
        invariant
            j <= keywords.len(),
            output@.map_values(|s: String| s@) == before + explanations(keywords@.subrange(0, j as int), *icons),
        decreases keywords.len() - j,
    {
        let text = explain(keywords[j], icons);
        let ghost shown = text@;
        let ghost earlier = output@;
        output.push(text);
        assert(output@.map_values(|s: String| s@) =~= earlier.map_values(|s: String| s@).push(shown));
        assert(explanations(keywords@.subrange(0, j + 1), *icons) =~= explanations(
            keywords@.subrange(0, j as int),
            *icons,
        ).push(shown));
        j += 1;
    }
    assert(keywords@.subrange(0, j as int) =~= keywords@);
}

/// `s` with each match of `from` replaced by `to`, matches taken from the left and not
/// overlapping.
pub open spec fn replaced(s: Seq<char>, from: Seq<char>, to: Seq<char>) -> Seq<char>
    decreases s.len(),
{
    if from.len() == 0 || s.len() < from.len() {
        s
    } else if s.subrange(0, from.len() as int) == from {
        to + replaced(s.subrange(from.len() as int, s.len() as int), from, to)
    } else {
        seq![s[0]] + replaced(s.subrange(1, s.len() as int), from, to)
    }
}

/// `str::replace` of std. Its documentation: "Replaces all matches of a pattern with another
/// string", the matches found from the left, each after the end of the one before.
#[verifier::external_body]
fn replace(s: &str, from: &str, to: &str) -> (result: String)
    requires
        from@.len() > 0,
    ensures
        result@ == replaced(s@, from@, to@),
{
    s.replace(from, to)
}

/// The word at the start of a sentence, or inside one.
pub open spec fn word(position: Sentence, start: Seq<char>, internal: Seq<char>) -> Seq<char> {
    match position {
        Sentence::Start => start,
        Sentence::Internal => internal,
    }
}

/// How damage is worded.
pub open spec fn damage_word_text(damage_word: DamageWord) -> Seq<char> {
    match damage_word {
        DamageWord::DealStart => "Deal"@,
        DamageWord::DealInternal => "deal"@,
        DamageWord::TakeStart => "Take"@,
        DamageWord::TakeInternal => "take"@,
    }
}

/// How a keyword reads.
pub open spec fn keyword_text(keyword: Keyword, icons: TextIcons) -> Seq<char> {
    match keyword {
        Keyword::Play => "<b>\u{f0e7}Play:</b>"@,
        Keyword::Dawn => "<b>\u{f0e7}Dawn:</b>"@,
        Keyword::Dusk => "<b>\u{f0e7}Dusk:</b>"@,
        Keyword::Score => "<b>"@ + icons.trigger@ + "Score:</b>"@,
        Keyword::Combat => "<b>"@ + icons.trigger@ + "Combat:</b>"@,
        Keyword::Encounter => "<b>"@ + icons.trigger@ + "Encounter:</b>"@,
        Keyword::Unveil => "<b>Unveil</b>"@,
        Keyword::SuccessfulRaid => "<b>"@ + icons.trigger@ + "Successful Raid:</b>"@,
        Keyword::Store(position, n) => "<b>"@ + word(position, "Store"@, "store"@) + "</b>"@
            + icons.non_breaking_space@ + spec_decimal(n as nat) + icons.mana@,
        Keyword::Take(position, n) => word(position, "Take"@, "take"@) + icons.non_breaking_space@
            + spec_decimal(n as nat) + icons.mana@,
        Keyword::DealDamage(damage_word, amount, damage_type) => damage_word_text(damage_word) + " "@
            + spec_decimal(amount as nat) + " "@ + damage_type@,
        Keyword::InnerRoom(position) => word(position, "Inner room"@, "inner room"@),
        Keyword::Breach(breach) => "<b>Breach</b>"@ + icons.non_breaking_space@ + spec_decimal(breach as nat),
        Keyword::LevelUp => "<b>Level Up</b>"@,
        Keyword::Trap => "<b>"@ + icons.trigger@ + "Trap:</b>"@,
        Keyword::Construct => "<b>Construct</b>"@,
    }
}

fn keyword_string(keyword: &Keyword, icons: &TextIcons) -> (result: String)
    ensures
        result@ == keyword_text(*keyword, *icons),
{
    match keyword {
        Keyword::Play => String::from_str("<b>\u{f0e7}Play:</b>"),
        Keyword::Dawn => String::from_str("<b>\u{f0e7}Dawn:</b>"),
        Keyword::Dusk => String::from_str("<b>\u{f0e7}Dusk:</b>"),
        Keyword::Score => triggered(icons, "Score:</b>"),
        Keyword::Combat => triggered(icons, "Combat:</b>"),
        Keyword::Encounter => triggered(icons, "Encounter:</b>"),
        Keyword::Unveil => String::from_str("<b>Unveil</b>"),
        Keyword::SuccessfulRaid => triggered(icons, "Successful Raid:</b>"),
        Keyword::Store(position, n) => {
            let mut text = String::from_str("<b>");
            match position {
                Sentence::Start => text.append("Store"),
                Sentence::Internal => text.append("store"),
            }
            text.append("</b>");
            text.append(icons.non_breaking_space.as_str());
            text.append(decimal(*n).as_str());
            text.append(icons.mana.as_str());
            text
        },
        Keyword::Take(position, n) => {
            let mut text = match position {
                Sentence::Start => String::from_str("Take"),
                Sentence::Internal => String::from_str("take"),
            };
            text.append(icons.non_breaking_space.as_str());
            text.append(decimal(*n).as_str());
            text.append(icons.mana.as_str());
            text
        },
        Keyword::DealDamage(damage_word, amount, damage_type) => {
            let mut text = match damage_word {
                DamageWord::DealStart => String::from_str("Deal"),
                DamageWord::DealInternal => String::from_str("deal"),
                DamageWord::TakeStart => String::from_str("Take"),
                DamageWord::TakeInternal => String::from_str("take"),
            };
            text.append(" ");
            text.append(decimal(*amount).as_str());
            text.append(" ");
            text.append(damage_type.as_str());
            text
        },
        Keyword::InnerRoom(position) => match position {
            Sentence::Start => String::from_str("Inner room"),
            Sentence::Internal => String::from_str("inner room"),
        },
        Keyword::Breach(breach) => {
            let mut text = String::from_str("<b>Breach</b>");
            text.append(icons.non_breaking_space.as_str());
            text.append(decimal(*breach).as_str());
            text
        },
        Keyword::LevelUp => String::from_str("<b>Level Up</b>"),
        Keyword::Trap => triggered(icons, "Trap:</b>"),
        Keyword::Construct => String::from_str("<b>Construct</b>"),
    }
}

/// A bold keyword led by the trigger icon.
fn triggered(icons: &TextIcons, rest: &str) -> (result: String)
    ensures
        result@ == "<b>"@ + icons.trigger@ + rest@,
{
    let mut text = String::from_str("<b>");
    text.append(icons.trigger.as_str());
    text.append(rest);
    text
}

/// How one token reads.
pub open spec fn token_text(token: TextToken, icons: TextIcons) -> Seq<char>
    decreases token,
{
    match token {
        TextToken::Literal(text) => text@,
        TextToken::Number(operator, number) => match operator {
            NumericOperator::Plain => spec_decimal(number as nat),
            NumericOperator::Add => "+"@ + spec_decimal(number as nat),
        },
        TextToken::Mana(mana) => spec_decimal(mana as nat) + icons.mana@,
        TextToken::Actions(actions) => spec_decimal(actions as nat) + icons.action@,
        TextToken::Keyword(keyword) => keyword_text(keyword, icons),
        TextToken::Reminder(text) => "<i>"@ + text@ + "</i>"@,
        TextToken::Cost(cost) => punctuated(joined(cost@, icons)) + ": "@,
    }
}

/// The tokens, each read as it reads, separated by spaces.
pub open spec fn joined(tokens: Seq<TextToken>, icons: TextIcons) -> Seq<char>
    decreases tokens,
{
    if tokens.len() == 0 {
        Seq::empty()
    } else if tokens.len() == 1 {
        token_text(tokens[0], icons)
    } else {
        joined(tokens.subrange(0, tokens.len() - 1), icons) + " "@ + token_text(tokens[tokens.len() - 1], icons)
    }
}

/// Punctuation does not stand on its own: the space before a full stop or a comma goes.
pub open spec fn punctuated(text: Seq<char>) -> Seq<char> {
    replaced(replaced(text, " ."@, "."@), " ,"@, ","@)
}

/// The rules text that `tokens` make.
pub open spec fn spec_rules_text(tokens: Seq<TextToken>, icons: TextIcons) -> Seq<char> {
    punctuated(joined(tokens, icons))
}

/// How one token reads.
fn token_string(token: &TextToken, icons: &TextIcons) -> (result: String)
    ensures
        result@ == token_text(*token, *icons),
    decreases token,
{
    match token {
        TextToken::Literal(text) => text.clone(),
        TextToken::Number(operator, number) => match operator {
            NumericOperator::Plain => decimal(*number),
            NumericOperator::Add => {
                let mut text = String::from_str("+");
                text.append(decimal(*number).as_str());
                text
            },
        },
        TextToken::Mana(mana) => {
            let mut text = decimal(*mana);
            text.append(icons.mana.as_str());
            text
        },
        TextToken::Actions(actions) => {
            let mut text = decimal(*actions);
            text.append(icons.action.as_str());
            text
        },
        TextToken::Keyword(keyword) => keyword_string(keyword, icons),
        TextToken::Reminder(reminder) => {
            let mut text = String::from_str("<i>");
            text.append(reminder.as_str());
            text.append("</i>");
            text
        },
        TextToken::Cost(cost) => {
            let mut text = process_text_tokens(cost, icons);
            text.append(": ");
            text
        },
    }
}

/// Turns a sequence of tokens into rules text.
pub fn process_text_tokens(tokens: &Vec<TextToken>, icons: &TextIcons) -> (result: String)
    ensures
        result@ == spec_rules_text(tokens@, *icons),
    decreases tokens,
{
    let mut text = String::new();
    let mut i: usize = 0;
    while i < tokens.len()
        invariant
            i <= tokens.len(),
            text@ == joined(tokens@.subrange(0, i as int), *icons),
        decreases tokens.len() - i,
    {
        assert(tokens@.subrange(0, i + 1).subrange(0, i as int) =~= tokens@.subrange(0, i as int));
        assert(tokens@.subrange(0, i + 1)[i as int] == tokens@[i as int]);
        let part = token_string(&tokens[i], icons);
        if i > 0 {
            text.append(" ");
        }
        text.append(part.as_str());
        i += 1;
    }
    assert(tokens@.subrange(0, i as int) =~= tokens@);
    proof {
        reveal_strlit(" .");
        reveal_strlit(" ,");
    }
    let without_stops = replace(text.as_str(), " .", ".");
    replace(without_stops.as_str(), " ,", ",")
}

/// The kind of a keyword, which its explanation is given for.
pub open spec fn spec_keyword_kind(keyword: Keyword) -> KeywordKind {
    match keyword {
        Keyword::Play => KeywordKind::Play,
        Keyword::Dawn => KeywordKind::Dawn,
        Keyword::Dusk => KeywordKind::Dusk,
        Keyword::Score => KeywordKind::Score,
        Keyword::Combat => KeywordKind::Combat,
        Keyword::Encounter => KeywordKind::Encounter,
        Keyword::Unveil => KeywordKind::Unveil,
        Keyword::SuccessfulRaid => KeywordKind::SuccessfulRaid,
        Keyword::Store(_, _) => KeywordKind::Store,
        Keyword::Take(_, _) => KeywordKind::Store,
        Keyword::DealDamage(_, _, _) => KeywordKind::DealDamage,
        Keyword::InnerRoom(_) => KeywordKind::InnerRoom,
        Keyword::Breach(_) => KeywordKind::Breach,
        Keyword::LevelUp => KeywordKind::LevelUp,
        Keyword::Trap => KeywordKind::Trap,
        Keyword::Construct => KeywordKind::Construct,
    }
}

/// The kind of a keyword.
pub fn keyword_kind(keyword: &Keyword) -> (result: KeywordKind)
    ensures
        result == spec_keyword_kind(*keyword),
{
    match keyword {
        Keyword::Play => KeywordKind::Play,
        Keyword::Dawn => KeywordKind::Dawn,
        Keyword::Dusk => KeywordKind::Dusk,
        Keyword::Score => KeywordKind::Score,
        Keyword::Combat => KeywordKind::Combat,
        Keyword::Encounter => KeywordKind::Encounter,
        Keyword::Unveil => KeywordKind::Unveil,
        Keyword::SuccessfulRaid => KeywordKind::SuccessfulRaid,
        Keyword::Store(_, _) => KeywordKind::Store,
        Keyword::Take(_, _) => KeywordKind::Store,
        Keyword::DealDamage(_, _, _) => KeywordKind::DealDamage,
        Keyword::InnerRoom(_) => KeywordKind::InnerRoom,
        Keyword::Breach(_) => KeywordKind::Breach,
        Keyword::LevelUp => KeywordKind::LevelUp,
        Keyword::Trap => KeywordKind::Trap,
        Keyword::Construct => KeywordKind::Construct,
    }
}

/// The kinds of the keyword tokens among `tokens`, in order.
pub open spec fn keyword_kinds(tokens: Seq<TextToken>) -> Seq<KeywordKind>
    decreases tokens.len(),
{
    if tokens.len() == 0 {
        Seq::empty()
    } else {
        let earlier = keyword_kinds(tokens.drop_last());
        match tokens.last() {
            TextToken::Keyword(k) => earlier.push(spec_keyword_kind(k)),
            _ => earlier,
        }
    }
}

/// Adds to `keywords` the kinds of the keyword tokens among `tokens`.
pub fn find_keywords(tokens: &Vec<TextToken>, keywords: &mut Vec<KeywordKind>)
    ensures
        final(keywords)@ == old(keywords)@ + keyword_kinds(tokens@),
{
    let ghost before = keywords@;
    let mut i: usize = 0;
    while i < tokens.len()
        invariant
            i <= tokens.len(),
            keywords@ == before + keyword_kinds(tokens@.subrange(0, i as int)),
        decreases tokens.len() - i,
    {
        assert(tokens@.subrange(0, i + 1).drop_last() =~= tokens@.subrange(0, i as int));
        if let TextToken::Keyword(k) = &tokens[i] {
            keywords.push(keyword_kind(k));
        }
        i += 1;
    }
    assert(tokens@.subrange(0, i as int) =~= tokens@);
}

} // verus!
