use spelldawn::test_results::{
    find_attribute, read_test_results, report_case, ReportField, XmlAttribute, XmlNode,
};

const RUN: &str = r#"<?xml version="1.0" encoding="utf-8"?>
<test-run>
  <test-suite name="Tests">
    <test-case methodname="DrawCard" result="Passed" duration="0.25" />
    <test-case methodname="PlayCard" result="Failed" duration="1.5">
      <failure><message>expected 3</message></failure>
    </test-case>
  </test-suite>
</test-run>"#;

#[test]
fn reports_each_test_case_in_order() {
    let report = read_test_results(RUN).unwrap();
    assert_eq!(
        report.lines,
        vec!["\nDrawCard: Passed in 0.25\n".to_string(), "\nPlayCard: Failed in 1.5\n".to_string()]
    );
    assert!(report.failed);
    assert_eq!(report.missing, None);
    assert_eq!(report.exit_code(), 1);
}

#[test]
fn a_passing_run_exits_with_zero() {
    let text = r#"<run><test-case methodname="A" result="Passed" duration="1"/><other result="Failed"/></run>"#;
    let report = read_test_results(text).unwrap();
    assert_eq!(report.lines, vec!["\nA: Passed in 1\n".to_string()]);
    assert!(!report.failed);
    assert_eq!(report.exit_code(), 0);
}

#[test]
fn an_empty_run_passes() {
    let report = read_test_results("<run/>").unwrap();
    assert!(report.lines.is_empty());
    assert_eq!(report.exit_code(), 0);
}

#[test]
fn reading_stops_at_a_test_case_without_its_attributes() {
    let text = r#"<run>
        <test-case methodname="A" result="Skipped" duration="0"/>
        <test-case result="Passed" duration="2"/>
        <test-case methodname="C" result="Passed" duration="3"/>
    </run>"#;
    let report = read_test_results(text).unwrap();
    assert_eq!(report.lines, vec!["\nA: Skipped in 0\n".to_string()]);
    assert!(report.failed);
    assert_eq!(report.missing, Some(ReportField::MethodName));
}

#[test]
fn the_result_attribute_is_read_first() {
    let text = r#"<run><test-case duration="2"/></run>"#;
    assert_eq!(read_test_results(text).unwrap().missing, Some(ReportField::Result));
    let text = r#"<run><test-case methodname="B" result="Passed"/></run>"#;
    assert_eq!(read_test_results(text).unwrap().missing, Some(ReportField::Duration));
}

#[test]
fn namespaced_attributes_are_not_read() {
    let text = r#"<run xmlns:x="urn:x"><test-case x:result="Passed" methodname="A" duration="1"/></run>"#;
    assert_eq!(read_test_results(text).unwrap().missing, Some(ReportField::Result));
    let text = r#"<run xmlns="urn:x"><test-case result="Passed" methodname="A" duration="1"/></run>"#;
    assert_eq!(read_test_results(text).unwrap().lines, vec!["\nA: Passed in 1\n".to_string()]);
}

#[test]
fn malformed_documents_are_refused() {
    assert!(read_test_results("<run><test-case></run>").is_err());
    assert!(read_test_results("").is_err());
}

fn attribute(name: &str, value: &str) -> XmlAttribute {
    XmlAttribute { namespace: None, name: name.to_string(), value: value.to_string() }
}

#[test]
fn attributes_are_found_by_name() {
    let attributes = vec![
        XmlAttribute { namespace: Some("urn:x".to_string()), name: "a".to_string(), value: "1".to_string() },
        attribute("a", "2"),
        attribute("a", "3"),
    ];
    assert_eq!(find_attribute(&attributes, "a"), Some("2".to_string()));
    assert_eq!(find_attribute(&attributes, "b"), None);
}

#[test]
fn one_test_case() {
    let node = XmlNode {
        is_element: true,
        local_name: "test-case".to_string(),
        attributes: vec![attribute("duration", "9"), attribute("result", "Passed"), attribute("methodname", "M")],
    };
    assert_eq!(report_case(&node), Ok(("\nM: Passed in 9\n".to_string(), true)));
}
