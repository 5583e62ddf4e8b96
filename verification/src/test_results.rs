//! Reading the results of a test run from its XML report: one line for each test case, and
//! whether any test case did not pass.
use vstd::prelude::*;

verus! {

/// An attribute of an XML element.
#[derive(Debug, Clone)]
pub struct XmlAttribute {
    /// The namespace URI of the attribute's name, if it has one
    pub namespace: Option<String>,
    /// The local name of the attribute
    pub name: String,
    pub value: String,
}

pub ghost struct XmlAttributeView {
    pub namespace: Option<Seq<char>>,
    pub name: Seq<char>,
    pub value: Seq<char>,
}

impl View for XmlAttribute {
    type V = XmlAttributeView;

    open spec fn view(&self) -> XmlAttributeView {
        XmlAttributeView {
            namespace: match self.namespace {
                Some(uri) => Some(uri@),
                None => None,
            },
            name: self.name@,
            value: self.value@,
        }
    }
}

/// A node of an XML document.
#[derive(Debug, Clone)]
pub struct XmlNode {
    /// Whether the node is an element
    pub is_element: bool,
    /// The local name of an element's tag; empty for other nodes
    pub local_name: String,
    /// The attributes of an element, in document order; none for other nodes
    pub attributes: Vec<XmlAttribute>,
}

pub ghost struct XmlNodeView {
    pub is_element: bool,
    pub local_name: Seq<char>,
    pub attributes: Seq<XmlAttributeView>,
}

impl View for XmlNode {
    type V = XmlNodeView;

    open spec fn view(&self) -> XmlNodeView {
        XmlNodeView {
            is_element: self.is_element,
            local_name: self.local_name@,
            attributes: self.attributes@.map_values(|a: XmlAttribute| a@),
        }
    }
}

/// The nodes of the XML document `text` in document order, the document's root node first, or
/// `None` where `text` is not a well-formed XML document.
pub uninterp spec fn xml_descendants(text: Seq<char>) -> Option<Seq<XmlNodeView>>;

/// `roxmltree::Document::parse`, then the document's `descendants`, each node taken as plain
/// values. The contract claims only that the result is the named parse of `text`, and that
/// parsing fails exactly where that parse is `None`; on failure it returns the parser's message.
#[verifier::external_body]
fn parse_xml(text: &str) -> (result: Result<Vec<XmlNode>, String>)
    ensures
        match result {
            Ok(nodes) => xml_descendants(text@) == Some(nodes@.map_values(|n: XmlNode| n@)),
            Err(_) => xml_descendants(text@) is None,
        },
{
    match roxmltree::Document::parse(text) {
        Ok(doc) => Ok(doc.descendants().map(|n| XmlNode {
            is_element: n.is_element(),
            local_name: n.tag_name().name().to_string(),
            attributes: n.attributes().map(|a| XmlAttribute {
                namespace: a.namespace().map(|uri| uri.to_string()),
                name: a.name().to_string(),
                value: a.value().to_string(),
            }).collect(),
        }).collect()),
        Err(e) => Err(e.to_string()),
    }
}

/// The value of the first attribute named `name` with no namespace.
pub open spec fn attribute_value(attributes: Seq<XmlAttributeView>, name: Seq<char>) -> Option<Seq<char>>
    decreases attributes.len(),
{
    if attributes.len() == 0 {
        None
    } else if attributes[0].namespace is None && attributes[0].name == name {
        Some(attributes[0].value)
    } else {
        attribute_value(attributes.drop_first(), name)
    }
}

/// The value of the attribute named `name` (with no namespace) of `attributes`.
pub fn find_attribute(attributes: &Vec<XmlAttribute>, name: &str) -> (result: Option<String>)
    ensures
        match result {
            Some(value) => attribute_value(attributes@.map_values(|a: XmlAttribute| a@), name@)
                == Some(value@),
            None => attribute_value(attributes@.map_values(|a: XmlAttribute| a@), name@) is None,
        },
{
    let ghost all = attributes@.map_values(|a: XmlAttribute| a@);
    let wanted = String::from_str(name);
    assert(all.subrange(0, all.len() as int) =~= all);
    let mut i: usize = 0;
    while i < attributes.len()
        invariant
            i <= attributes.len(),
            all == attributes@.map_values(|a: XmlAttribute| a@),
            wanted@ == name@,
            attribute_value(all, name@) == attribute_value(all.subrange(i as int, all.len() as int), name@),
        decreases attributes.len() - i,
    {
        let ghost rest = all.subrange(i as int, all.len() as int);
        assert(rest.drop_first() =~= all.subrange(i + 1, all.len() as int));
        assert(rest[0] == attributes@[i as int]@);
        let attribute = &attributes[i];
        if attribute.namespace.is_none() && attribute.name == wanted {
            return Some(attribute.value.clone());
        }
        i += 1;
    }
    None
}

/// The attributes of a test case that its report line shows.
#[derive(PartialEq, Eq, Structural, Hash, Debug, Copy, Clone)]
pub enum ReportField {
    /// The `result` attribute
    Result,
    /// The `methodname` attribute
    MethodName,
    /// The `duration` attribute
    Duration,
}

/// Whether a node is a `test-case` element.
pub open spec fn is_test_case(node: XmlNodeView) -> bool {
    node.is_element && node.local_name == "test-case"@
}

/// The report of one test case: its line and whether it passed, or the first of its `result`,
/// `methodname` and `duration` attributes that it lacks.
pub open spec fn case_report(node: XmlNodeView) -> Result<(Seq<char>, bool), ReportField> {
    match attribute_value(node.attributes, "result"@) {
        None => Err(ReportField::Result),
        Some(result) => match attribute_value(node.attributes, "methodname"@) {
            None => Err(ReportField::MethodName),
            Some(method) => match attribute_value(node.attributes, "duration"@) {
                None => Err(ReportField::Duration),
                Some(duration) => Ok(
                    (
                        "\n"@ + method + ": "@ + result + " in "@ + duration + "\n"@,
                        result == "Passed"@,
                    ),
                ),
            },
        },
    }
}

/// What a test run's report says.
#[derive(Debug, Clone)]
pub struct TestReport {
    /// One line for each test case, in document order
    pub lines: Vec<String>,
    /// Whether a test case did not pass
    pub failed: bool,
    /// The attribute that the test case after the last line lacks, where one does
    pub missing: Option<ReportField>,
}

/// The report of `nodes`, as its lines, whether a test case failed, and the attribute that
/// stopped it: the test cases are read in order, and reading stops at the first one that lacks
/// an attribute.
pub open spec fn spec_report(nodes: Seq<XmlNodeView>) -> (Seq<Seq<char>>, bool, Option<ReportField>)
    decreases nodes.len(),
{
    if nodes.len() == 0 {
        (Seq::empty(), false, None)
    } else {
        let (lines, failed, missing) = spec_report(nodes.drop_last());
        if missing is Some || !is_test_case(nodes.last()) {
            (lines, failed, missing)
        } else {
            match case_report(nodes.last()) {
                Err(field) => (lines, failed, Some(field)),
                Ok((line, passed)) => (lines.push(line), failed || !passed, None),
            }
        }
    }
}

impl TestReport {
    pub open spec fn spec_view(self) -> (Seq<Seq<char>>, bool, Option<ReportField>) {
        (self.lines@.map_values(|l: String| l@), self.failed, self.missing)
    }

    /// The exit status of a run that read this report: 1 when a test case failed, 0 otherwise.
    pub fn exit_code(&self) -> (code: i32)
        ensures
            code == if self.failed {
                1i32
            } else {
                0i32
            },
    {
        if self.failed {
            1
        } else {
            0
        }
    }
}

/// The report line of a test case and whether it passed, or the attribute that it lacks.
pub fn report_case(node: &XmlNode) -> (result: Result<(String, bool), ReportField>)
    ensures
        match result {
            Ok((line, passed)) => case_report(node@) == Ok::<(Seq<char>, bool), ReportField>((line@, passed)),
            Err(field) => case_report(node@) == Err::<(Seq<char>, bool), ReportField>(field),
        },
{
    let result = match find_attribute(&node.attributes, "result") {
        Some(value) => value,
        None => return Err(ReportField::Result),
    };
    let method = match find_attribute(&node.attributes, "methodname") {
        Some(value) => value,
        None => return Err(ReportField::MethodName),
    };
    let duration = match find_attribute(&node.attributes, "duration") {
        Some(value) => value,
        None => return Err(ReportField::Duration),
    };
    let mut line = String::from_str("\n");
    line.append(method.as_str());
    line.append(": ");
    line.append(result.as_str());
    line.append(" in ");
    line.append(duration.as_str());
    line.append("\n");
    let passed = result == String::from_str("Passed");
    Ok((line, passed))
}

/// Reads the test cases of `nodes` (the nodes of a report document, in document order).
pub fn report(nodes: &Vec<XmlNode>) -> (result: TestReport)
    ensures
        result.spec_view() == spec_report(nodes@.map_values(|n: XmlNode| n@)),
{
    let ghost all = nodes@.map_values(|n: XmlNode| n@);
    let mut lines: Vec<String> = Vec::new();
    let mut failed = false;
    let mut i: usize = 0;
    let test_case = String::from_str("test-case");
    while i < nodes.len()
        invariant
            i <= nodes.len(),
            all == nodes@.map_values(|n: XmlNode| n@),
            test_case@ == "test-case"@,
            (lines@.map_values(|l: String| l@), failed, None::<ReportField>) == spec_report(
                all.subrange(0, i as int),
            ),
        decreases nodes.len() - i,
    {
        let ghost done = all.subrange(0, i as int);
        assert(all.subrange(0, i + 1).drop_last() =~= done);
        assert(all.subrange(0, i + 1).last() == nodes@[i as int]@);
        let node = &nodes[i];
        if node.is_element && node.local_name == test_case {
            match report_case(node) {
                Ok((line, passed)) => {
                    let ghost before = lines@;
                    let ghost shown = line@;
                    lines.push(line);
                    assert(lines@.map_values(|l: String| l@) =~= before.map_values(|l: String| l@).push(
                        shown,
                    ));
                    failed = failed || !passed;
                },
                Err(field) => {
                    let result = TestReport { lines, failed, missing: Some(field) };
                    assert(spec_report(all.subrange(0, i + 1)) == result.spec_view());
                    proof {
                        lemma_report_stops(all, i as int + 1);
                    }
                    return result;
                },
            }
        }
        i += 1;
    }
    assert(all.subrange(0, i as int) =~= all);
    TestReport { lines, failed, missing: None }
}

/// Once reading has stopped, the nodes that follow leave the report unchanged.
proof fn lemma_report_stops(nodes: Seq<XmlNodeView>, stop: int)
    requires
        0 <= stop <= nodes.len(),
        spec_report(nodes.subrange(0, stop)).2 is Some,
    ensures
        spec_report(nodes) == spec_report(nodes.subrange(0, stop)),
    decreases nodes.len() - stop,
{
    if stop < nodes.len() {
        let longer = nodes.subrange(0, stop + 1);
        assert(longer.drop_last() =~= nodes.subrange(0, stop));
        lemma_report_stops(nodes, stop + 1);
    } else {
        assert(nodes.subrange(0, stop) =~= nodes);
    }
}

/// Reads a test run's XML report `text`: fails with the parser's message where `text` is not
/// well-formed XML.
pub fn read_test_results(text: &str) -> (result: Result<TestReport, String>)
    ensures
        match result {
            Ok(report) => xml_descendants(text@) matches Some(nodes) && report.spec_view() == spec_report(
                nodes,
            ),
            Err(_) => xml_descendants(text@) is None,
        },
{
    match parse_xml(text) {
        Ok(nodes) => Ok(report(&nodes)),
        Err(message) => Err(message),
    }
}

} // verus!
