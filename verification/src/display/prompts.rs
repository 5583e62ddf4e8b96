//! The buttons with which a player answers a prompt.
use vstd::prelude::*;
use vstd::string::StringExecFns;

use crate::display::rules_text::TextIcons;
use crate::game::MulliganDecision;
use crate::game_actions::{
    AccessPhaseAction, CardPromptAction, ContinueAction, EncounterAction, PromptAction, PromptContext,
    RoomActivationAction,
};
use crate::primitives::{CardId, ManaValue, Side};
use crate::text::{decimal, spec_decimal};

verus! {

/// The caption shown above a prompt.
pub open spec fn spec_prompt_context(context: Option<PromptContext>) -> Option<Seq<char>> {
    match context {
        Some(PromptContext::ActivateRoom) => Some("Raid:"@),
        Some(PromptContext::RaidAdvance) => Some("Continue?"@),
        None => None,
    }
}

/// The caption shown above a prompt with this context, if any.
pub fn prompt_context(context: Option<PromptContext>) -> (result: Option<String>)
    ensures
        match result {
            Some(text) => spec_prompt_context(context) == Some(text@),
            None => spec_prompt_context(context) is None,
        },
{
    match context {
        Some(PromptContext::ActivateRoom) => Some(String::from_str("Raid:")),
        Some(PromptContext::RaidAdvance) => Some(String::from_str("Continue?")),
        None => None,
    }
}

/// A button answering a prompt.
#[derive(Debug, Clone)]
pub struct ResponseButton {
    pub label: String,
    pub anchor_to_card: Option<CardId>,
    /// Primary buttons are shown more prominently than secondary ones
    pub primary: bool,
    pub two_lines: bool,
    pub action: Option<PromptAction>,
    pub shift_down: bool,
}

/// `button` is labelled `label`, is primary exactly when `primary` holds, and has no other
/// setting.
pub open spec fn plain_button(button: ResponseButton, label: Seq<char>, primary: bool) -> bool {
    &&& button.label@ == label
    &&& button.anchor_to_card is None
    &&& button.primary == primary
    &&& !button.two_lines
    &&& button.action is None
    &&& !button.shift_down
}

impl Default for ResponseButton {
    fn default() -> (result: ResponseButton)
        ensures
            plain_button(result, Seq::empty(), true),
    {
        ResponseButton {
            label: String::new(),
            anchor_to_card: None,
            primary: true,
            two_lines: false,
            action: None,
            shift_down: false,
        }
    }
}

/// Keeping the opening hand is the primary choice.
pub fn mulligan_button(mulligan: MulliganDecision) -> (result: ResponseButton)
    ensures
        mulligan == MulliganDecision::Keep ==> plain_button(result, "Keep"@, true),
        mulligan == MulliganDecision::Mulligan ==> plain_button(result, "Mulligan"@, false),
{
    match mulligan {
        MulliganDecision::Keep => ResponseButton { label: String::from_str("Keep"), ..ResponseButton::default() },
        MulliganDecision::Mulligan => ResponseButton {
            label: String::from_str("Mulligan"),
            primary: false,
            ..ResponseButton::default()
        },
    }
}

/// Activating the room is the primary choice.
pub fn activate_button(activate: RoomActivationAction) -> (result: ResponseButton)
    ensures
        activate == RoomActivationAction::Activate ==> plain_button(result, "Activate"@, true),
        activate == RoomActivationAction::Pass ==> plain_button(result, "Pass"@, false),
{
    match activate {
        RoomActivationAction::Activate => ResponseButton {
            label: String::from_str("Activate"),
            ..ResponseButton::default()
        },
        RoomActivationAction::Pass => ResponseButton {
            label: String::from_str("Pass"),
            primary: false,
            ..ResponseButton::default()
        },
    }
}

/// Advancing is the primary choice.
pub fn advance_action_button(advance_action: ContinueAction) -> (result: ResponseButton)
    ensures
        advance_action == ContinueAction::Advance ==> plain_button(result, "Advance"@, true),
        advance_action == ContinueAction::Retreat ==> plain_button(result, "Retreat"@, false),
{
    match advance_action {
        ContinueAction::Advance => ResponseButton {
            label: String::from_str("Advance"),
            primary: true,
            ..ResponseButton::default()
        },
        ContinueAction::Retreat => ResponseButton {
            label: String::from_str("Retreat"),
            primary: false,
            ..ResponseButton::default()
        },
    }
}

/// A button shown under a card.
#[derive(Debug, Clone)]
pub struct CardAnchoredButton {
    pub card_id: CardId,
    pub button: ResponseButton,
}

/// How a prompt is laid out: an optional caption leading the main controls, the buttons among
/// the main controls, and the buttons shown under cards, each in the order of the responses.
#[derive(Debug)]
pub struct PromptLayout {
    pub label: Option<String>,
    pub main_buttons: Vec<ResponseButton>,
    pub anchored: Vec<CardAnchoredButton>,
}

/// The buttons that are not anchored to a card, in order.
pub open spec fn main_buttons(buttons: Seq<ResponseButton>) -> Seq<ResponseButton>
    decreases buttons.len(),
{
    if buttons.len() == 0 {
        Seq::empty()
    } else {
        let earlier = main_buttons(buttons.drop_last());
        if buttons.last().anchor_to_card is None {
            earlier.push(buttons.last())
        } else {
            earlier
        }
    }
}

/// The buttons that are anchored to a card, with that card, in order.
pub open spec fn anchored_buttons(buttons: Seq<ResponseButton>) -> Seq<CardAnchoredButton>
    decreases buttons.len(),
{
    if buttons.len() == 0 {
        Seq::empty()
    } else {
        let earlier = anchored_buttons(buttons.drop_last());
        match buttons.last().anchor_to_card {
            Some(card_id) => earlier.push(CardAnchoredButton { card_id, button: buttons.last() }),
            None => earlier,
        }
    }
}

/// Lays out a prompt with the context `context` whose responses have the buttons `buttons`.
pub fn prompt_layout(context: Option<PromptContext>, buttons: Vec<ResponseButton>) -> (result: PromptLayout)
    ensures
        match result.label {
            Some(label) => spec_prompt_context(context) == Some(label@),
            None => spec_prompt_context(context) is None,
        },
        result.main_buttons@ == main_buttons(buttons@),
        result.anchored@ == anchored_buttons(buttons@),
{
    let label = prompt_context(context);
    let ghost all = buttons@;
    let count = buttons.len();
    let mut remaining = buttons;
    let mut main: Vec<ResponseButton> = Vec::new();
    let mut anchored: Vec<CardAnchoredButton> = Vec::new();
    let mut k: usize = 0;
    while remaining.len() > 0
        invariant
            k <= all.len(),
            all.len() == count,
            remaining@ == all.subrange(k as int, all.len() as int),
            main@ == main_buttons(all.subrange(0, k as int)),
            anchored@ == anchored_buttons(all.subrange(0, k as int)),
        decreases remaining.len(),
    {
        let button = remaining.remove(0);
        assert(all.subrange(0, k + 1).drop_last() =~= all.subrange(0, k as int));
        assert(button == all[k as int]);
        assert(remaining@ =~= all.subrange(k + 1, all.len() as int));
        match button.anchor_to_card {
            Some(card_id) => anchored.push(CardAnchoredButton { card_id, button }),
            None => main.push(button),
        }
        k += 1;
    }
    assert(all.subrange(0, k as int) =~= all);
    PromptLayout { label, main_buttons: main, anchored }
}

/// What a button shows and does.
pub ghost struct ButtonView {
    pub label: Seq<char>,
    pub anchor_to_card: Option<CardId>,
    pub primary: bool,
    pub two_lines: bool,
    pub action: Option<PromptAction>,
    pub shift_down: bool,
}

impl View for ResponseButton {
    type V = ButtonView;

    open spec fn view(&self) -> ButtonView {
        ButtonView {
            label: self.label@,
            anchor_to_card: self.anchor_to_card,
            primary: self.primary,
            two_lines: self.two_lines,
            action: self.action,
            shift_down: self.shift_down,
        }
    }
}

/// A primary button labelled `label`, with no other setting.
pub open spec fn labelled(label: Seq<char>) -> ButtonView {
    ButtonView {
        label,
        anchor_to_card: None,
        primary: true,
        two_lines: false,
        action: None,
        shift_down: false,
    }
}

/// "Pay" when the player who answers is the one who loses, "Lose" otherwise.
pub open spec fn lose_word(user_side: Side, target_side: Side) -> Seq<char> {
    if user_side == target_side {
        "Pay"@
    } else {
        "Lose"@
    }
}

/// The button of a response to a card's prompt, for the player `user_side`.
pub open spec fn card_button(user_side: Side, action: CardPromptAction, icons: TextIcons) -> ButtonView {
    match action {
        CardPromptAction::LoseMana(side, amount) => labelled(
            lose_word(user_side, side) + " "@ + spec_decimal(amount as nat) + icons.mana@,
        ),
        CardPromptAction::LoseActions(side, amount) => labelled(
            if amount > 1 {
                lose_word(user_side, side) + " "@ + spec_decimal(amount as nat) + icons.action@
            } else {
                lose_word(user_side, side) + " "@ + icons.action@
            },
        ),
        CardPromptAction::EndRaid => labelled("End Raid"@),
        CardPromptAction::TakeDamage(_, amount) => labelled("Take "@ + spec_decimal(amount as nat)),
        CardPromptAction::TakeDamageEndRaid(_, amount) => labelled(
            "End Raid, Take "@ + spec_decimal(amount as nat),
        ),
    }
}

fn lose_text(user_side: Side, target_side: Side) -> (result: String)
    ensures
        result@ == lose_word(user_side, target_side),
{
    if user_side == target_side {
        String::from_str("Pay")
    } else {
        String::from_str("Lose")
    }
}

/// A primary button labelled `label`.
fn labelled_button(label: String) -> (result: ResponseButton)
    ensures
        result@ == labelled(label@),
{
    ResponseButton { label, ..ResponseButton::default() }
}

/// The button of a response to a card's prompt, for the player `user_side`.
pub fn card_response_button(user_side: Side, action: CardPromptAction, icons: &TextIcons) -> (result: ResponseButton)
    ensures
        result@ == card_button(user_side, action, *icons),
{
    match action {
        CardPromptAction::LoseMana(side, amount) => {
            let mut label = lose_text(user_side, side);
            label.append(" ");
            label.append(decimal(amount).as_str());
            label.append(icons.mana.as_str());
            labelled_button(label)
        },
        CardPromptAction::LoseActions(side, amount) => {
            let mut label = lose_text(user_side, side);
            label.append(" ");
            if amount > 1 {
                label.append(decimal(amount).as_str());
            }
            label.append(icons.action.as_str());
            labelled_button(label)
        },
        CardPromptAction::EndRaid => labelled_button(String::from_str("End Raid")),
        CardPromptAction::TakeDamage(_, amount) => {
            let mut label = String::from_str("Take ");
            label.append(decimal(amount).as_str());
            labelled_button(label)
        },
        CardPromptAction::TakeDamageEndRaid(_, amount) => {
            let mut label = String::from_str("End Raid, Take ");
            label.append(decimal(amount).as_str());
            labelled_button(label)
        },
    }
}

/// What a weapon's button shows: the weapon's name, and the mana it costs to defeat the target
/// (`None` when it cannot).
#[derive(Debug, Clone)]
pub struct WeaponInfo {
    pub name: String,
    pub cost_to_defeat: Option<ManaValue>,
}

/// The button of an encounter action, for the player `side`; `weapon` describes the weapon of a
/// weapon action.
pub open spec fn encounter_button(
    side: Side,
    action: EncounterAction,
    icons: TextIcons,
    weapon_name: Seq<char>,
    cost_to_defeat: Option<ManaValue>,
) -> ButtonView {
    match action {
        EncounterAction::UseWeaponAbility(_, _) => match cost_to_defeat {
            Some(cost) => ButtonView {
                two_lines: true,
                ..labelled(
                    if cost > 0 {
                        weapon_name + "\n"@ + spec_decimal(cost as nat) + icons.mana@
                    } else {
                        weapon_name
                    },
                )
            },
            None => labelled(weapon_name),
        },
        EncounterAction::NoWeapon => ButtonView { primary: false, ..labelled("Continue"@) },
        EncounterAction::CardAction(card_action) => card_button(side, card_action, icons),
    }
}

/// The button of an encounter action, for the player `side`.
pub fn encounter_action_button(side: Side, action: EncounterAction, icons: &TextIcons, weapon: &WeaponInfo) -> (result:
    ResponseButton)
    ensures
        result@ == encounter_button(side, action, *icons, weapon.name@, weapon.cost_to_defeat),
{
    match action {
        EncounterAction::UseWeaponAbility(_, _) => match weapon.cost_to_defeat {
            Some(cost) => {
                let mut label = weapon.name.clone();
                if cost > 0 {
                    label.append("\n");
                    label.append(decimal(cost).as_str());
                    label.append(icons.mana.as_str());
                }
                ResponseButton { two_lines: true, ..labelled_button(label) }
            },
            None => labelled_button(weapon.name.clone()),
        },
        EncounterAction::NoWeapon => ResponseButton {
            primary: false,
            ..labelled_button(String::from_str("Continue"))
        },
        EncounterAction::CardAction(card_action) => card_response_button(side, card_action, icons),
    }
}

/// The button of the response `response`, for the player `side`; `weapon` describes the weapon of
/// a weapon action. Scoring a card is anchored under that card; ending a raid is a secondary
/// button shown lower.
pub open spec fn spec_response_button(
    side: Side,
    response: PromptAction,
    icons: TextIcons,
    weapon_name: Seq<char>,
    cost_to_defeat: Option<ManaValue>,
) -> ButtonView {
    let button = match response {
        PromptAction::MulliganDecision(mulligan) => match mulligan {
            MulliganDecision::Keep => labelled("Keep"@),
            MulliganDecision::Mulligan => ButtonView { primary: false, ..labelled("Mulligan"@) },
        },
        PromptAction::ActivateRoomAction(activate) => match activate {
            RoomActivationAction::Activate => labelled("Activate"@),
            RoomActivationAction::Pass => ButtonView { primary: false, ..labelled("Pass"@) },
        },
        PromptAction::EncounterAction(action) => encounter_button(side, action, icons, weapon_name, cost_to_defeat),
        PromptAction::ContinueAction(advance) => match advance {
            ContinueAction::Advance => labelled("Advance"@),
            ContinueAction::Retreat => ButtonView { primary: false, ..labelled("Retreat"@) },
        },
        PromptAction::AccessPhaseAction(action) => match action {
            AccessPhaseAction::ScoreCard(card_id) => ButtonView {
                anchor_to_card: Some(card_id),
                ..labelled("Score!"@)
            },
            AccessPhaseAction::EndRaid => ButtonView {
                primary: false,
                shift_down: true,
                ..labelled("End Raid"@)
            },
        },
        PromptAction::CardAction(action) => card_button(side, action, icons),
    };
    ButtonView { action: Some(response), ..button }
}

/// The button of the response `response`, for the player `side`.
pub fn response_button(side: Side, response: PromptAction, icons: &TextIcons, weapon: &WeaponInfo) -> (result:
    ResponseButton)
    ensures
        result@ == spec_response_button(side, response, *icons, weapon.name@, weapon.cost_to_defeat),
{
    let button = match response {
        PromptAction::MulliganDecision(mulligan) => mulligan_button(mulligan),
        PromptAction::ActivateRoomAction(activate) => activate_button(activate),
        PromptAction::EncounterAction(action) => encounter_action_button(side, action, icons, weapon),
        PromptAction::ContinueAction(advance) => advance_action_button(advance),
        PromptAction::AccessPhaseAction(action) => match action {
            AccessPhaseAction::ScoreCard(card_id) => ResponseButton {
                anchor_to_card: Some(card_id),
                ..labelled_button(String::from_str("Score!"))
            },
            AccessPhaseAction::EndRaid => ResponseButton {
                primary: false,
                shift_down: true,
                ..labelled_button(String::from_str("End Raid"))
            },
        },
        PromptAction::CardAction(action) => card_response_button(side, action, icons),
    };
    ResponseButton { action: Some(response), ..button }
}

/// The buttons of `responses`, the i-th response described by the i-th of `weapons`.
pub open spec fn response_buttons(
    side: Side,
    responses: Seq<PromptAction>,
    icons: TextIcons,
    weapons: Seq<WeaponInfo>,
) -> Seq<ButtonView> {
    Seq::new(
        responses.len(),
        |i: int| spec_response_button(side, responses[i], icons, weapons[i].name@, weapons[i].cost_to_defeat),
    )
}

/// The cards that the score responses among `responses` name, in order.
pub open spec fn scored_cards(responses: Seq<PromptAction>) -> Seq<CardId>
    decreases responses.len(),
{
    if responses.len() == 0 {
        Seq::empty()
    } else {
        let earlier = scored_cards(responses.drop_last());
        match responses.last() {
            PromptAction::AccessPhaseAction(AccessPhaseAction::ScoreCard(card_id)) => earlier.push(card_id),
            _ => earlier,
        }
    }
}

/// The responses among `responses` that are not score responses, in order.
pub open spec fn unanchored_responses(responses: Seq<PromptAction>) -> Seq<PromptAction>
    decreases responses.len(),
{
    if responses.len() == 0 {
        Seq::empty()
    } else {
        let earlier = unanchored_responses(responses.drop_last());
        match responses.last() {
            PromptAction::AccessPhaseAction(AccessPhaseAction::ScoreCard(_)) => earlier,
            _ => earlier.push(responses.last()),
        }
    }
}

/// The cards under which the buttons are anchored, and the responses of the other buttons,
/// follow the responses the buttons answer.
proof fn lemma_button_partition(buttons: Seq<ResponseButton>, side: Side, responses: Seq<PromptAction>, icons: TextIcons, weapons: Seq<WeaponInfo>)
    requires
        buttons.len() == responses.len(),
        weapons.len() == responses.len(),
        forall|i: int| 0 <= i < buttons.len() ==> (#[trigger] buttons[i])@ == spec_response_button(
            side,
            responses[i],
            icons,
            weapons[i].name@,
            weapons[i].cost_to_defeat,
        ),
    ensures
        anchored_buttons(buttons).map_values(|a: CardAnchoredButton| a.card_id) == scored_cards(responses),
        main_buttons(buttons).map_values(|b: ResponseButton| b.action) == unanchored_responses(responses).map_values(
            |r: PromptAction| Some(r),
        ),
    decreases buttons.len(),
{
    if buttons.len() > 0 {
        let n = buttons.len() - 1;
        lemma_button_partition(buttons.drop_last(), side, responses.drop_last(), icons, weapons.drop_last());
        assert(buttons[n]@ == spec_response_button(side, responses[n], icons, weapons[n].name@, weapons[n].cost_to_defeat));
        assert(responses.last() == responses[n]);
        assert(buttons.last() == buttons[n]);
        let a_before = anchored_buttons(buttons.drop_last());
        let m_before = main_buttons(buttons.drop_last());
        match buttons[n].anchor_to_card {
            Some(card_id) => {
                assert(anchored_buttons(buttons).map_values(|a: CardAnchoredButton| a.card_id) =~= a_before.map_values(
                    |a: CardAnchoredButton| a.card_id,
                ).push(card_id));
            },
            None => {
                assert(main_buttons(buttons).map_values(|b: ResponseButton| b.action) =~= m_before.map_values(
                    |b: ResponseButton| b.action,
                ).push(buttons[n].action));
                assert(unanchored_responses(responses).map_values(|r: PromptAction| Some(r)) =~= unanchored_responses(
                    responses.drop_last(),
                ).map_values(|r: PromptAction| Some(r)).push(Some(responses[n])));
            },
        }
    }
}

/// Lays out the prompt with the context `context` and the responses `responses` for the player
/// `side`: each response becomes its button (the i-th of `weapons` describing the weapon of the
/// i-th response, when it is a weapon action); the buttons that score a card are anchored under
/// that card, in response order, and every other button goes to the main controls, in response
/// order, after the context's caption, if there is one.
pub fn action_prompt(
    side: Side,
    context: Option<PromptContext>,
    responses: &Vec<PromptAction>,
    icons: &TextIcons,
    weapons: &Vec<WeaponInfo>,
) -> (result: PromptLayout)
    requires
        weapons.len() == responses.len(),
    ensures
        match result.label {
            Some(label) => spec_prompt_context(context) == Some(label@),
            None => spec_prompt_context(context) is None,
        },
        result.main_buttons@.map_values(|b: ResponseButton| b@) == main_views(
            response_buttons(side, responses@, *icons, weapons@),
        ),
        result.anchored@.map_values(|a: CardAnchoredButton| (a.card_id, a.button@)) == anchored_views(
            response_buttons(side, responses@, *icons, weapons@),
        ),
        result.anchored@.map_values(|a: CardAnchoredButton| a.card_id) == scored_cards(responses@),
        result.main_buttons@.map_values(|b: ResponseButton| b.action) == unanchored_responses(
            responses@,
        ).map_values(|r: PromptAction| Some(r)),
{
    let mut buttons: Vec<ResponseButton> = Vec::new();
    let mut i: usize = 0;
    while i < responses.len()
        invariant
            i <= responses.len(),
            weapons.len() == responses.len(),
            buttons.len() == i,
            forall|j: int| 0 <= j < i ==> (#[trigger] buttons@[j])@ == spec_response_button(
                side,
                responses@[j],
                *icons,
                weapons@[j].name@,
                weapons@[j].cost_to_defeat,
            ),
        decreases responses.len() - i,
    {
        buttons.push(response_button(side, responses[i], icons, &weapons[i]));
        i += 1;
    }
    let ghost built = buttons@;
    proof {
        lemma_button_partition(built, side, responses@, *icons, weapons@);
        lemma_views_partition(built);
        assert(built.map_values(|b: ResponseButton| b@) =~= response_buttons(side, responses@, *icons, weapons@));
    }
    prompt_layout(context, buttons)
}

/// The views of the buttons that are not anchored to a card, in order.
pub open spec fn main_views(buttons: Seq<ButtonView>) -> Seq<ButtonView>
    decreases buttons.len(),
{
    if buttons.len() == 0 {
        Seq::empty()
    } else {
        let earlier = main_views(buttons.drop_last());
        if buttons.last().anchor_to_card is None {
            earlier.push(buttons.last())
        } else {
            earlier
        }
    }
}

/// The views of the buttons that are anchored to a card, with that card, in order.
pub open spec fn anchored_views(buttons: Seq<ButtonView>) -> Seq<(CardId, ButtonView)>
    decreases buttons.len(),
{
    if buttons.len() == 0 {
        Seq::empty()
    } else {
        let earlier = anchored_views(buttons.drop_last());
        match buttons.last().anchor_to_card {
            Some(card_id) => earlier.push((card_id, buttons.last())),
            None => earlier,
        }
    }
}

/// Partitioning buttons and taking views commute.
proof fn lemma_views_partition(buttons: Seq<ResponseButton>)
    ensures
        main_buttons(buttons).map_values(|b: ResponseButton| b@) == main_views(
            buttons.map_values(|b: ResponseButton| b@),
        ),
        anchored_buttons(buttons).map_values(|a: CardAnchoredButton| (a.card_id, a.button@)) == anchored_views(
            buttons.map_values(|b: ResponseButton| b@),
        ),
    decreases buttons.len(),
{
    if buttons.len() > 0 {
        lemma_views_partition(buttons.drop_last());
        assert(buttons.map_values(|b: ResponseButton| b@).drop_last() =~= buttons.drop_last().map_values(
            |b: ResponseButton| b@,
        ));
        let a_before = anchored_buttons(buttons.drop_last());
        let m_before = main_buttons(buttons.drop_last());
        assert(main_buttons(buttons).map_values(|b: ResponseButton| b@) =~= if buttons.last().anchor_to_card is None {
            m_before.map_values(|b: ResponseButton| b@).push(buttons.last()@)
        } else {
            m_before.map_values(|b: ResponseButton| b@)
        });
        assert(anchored_buttons(buttons).map_values(|a: CardAnchoredButton| (a.card_id, a.button@)) =~= match buttons.last().anchor_to_card {
            Some(card_id) => a_before.map_values(|a: CardAnchoredButton| (a.card_id, a.button@)).push((card_id, buttons.last()@)),
            None => a_before.map_values(|a: CardAnchoredButton| (a.card_id, a.button@)),
        });
    }
}

} // verus!
