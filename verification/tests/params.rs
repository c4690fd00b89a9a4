use hornbill_apilib::client::Xmlmc;
use hornbill_apilib::escape::xmlencode;
use hornbill_apilib::names::check_valid_xml;
use hornbill_apilib::params::{check_element, render_attributes, Attributes};

fn attr(key: &str, value: &str) -> Attributes {
    Attributes { key: key.to_string(), value: value.to_string() }
}

#[test]
fn test_client() {
    let mut x = Xmlmc::new("http://hhq-p02-api.hornbill.com/demo/xmlmc");

    assert_eq!(
        x.get_server_url(),
        "http://hhq-p02-api.hornbill.com/demo/xmlmc/"
    );
    let _ = x.open_element("first");
    assert_eq!(x.get_params(), "<params><first></params>");
    let _ = x.set_param("element1", "Value1");
    assert_eq!(
        x.get_params(),
        "<params><first><element1>Value1</element1></params>"
    );
    let _ = x.close_element("first");
    assert_eq!(
        x.get_params(),
        "<params><first><element1>Value1</element1></first></params>"
    );

    let _ = x.set_param("£$%£$£$£$_~()", "test");
    assert_eq!(
        x.get_params(),
        "<params><first><element1>Value1</element1></first></params>"
    );

    //This should be blank with no <params></params>
    let _ = x.clear_params();
    assert_eq!(x.get_params(), "");

    //Add attributes.
    let _ = x.set_param_attr(
        "test2",
        "value2",
        vec![Attributes {
            key: "attr1".to_string(),
            value: "attr'value1".to_string(),
        }],
    );
    assert_eq!(
        x.get_params(),
        "<params><test2 attr1=\"attr&apos;value1\" >value2</test2></params>"
    );
}

#[test]
fn xmlencode_replaces_each_special_character() {
    assert_eq!(xmlencode("<"), "&lt;");
    assert_eq!(xmlencode(">"), "&gt;");
    assert_eq!(xmlencode("\""), "&quot;");
    assert_eq!(xmlencode("'"), "&apos;");
    assert_eq!(xmlencode("&"), "&amp;");
}

#[test]
fn xmlencode_keeps_other_text() {
    assert_eq!(xmlencode(""), "");
    assert_eq!(xmlencode("plain text 123"), "plain text 123");
    assert_eq!(xmlencode("£ é 日本"), "£ é 日本");
}

#[test]
fn xmlencode_mixed_text() {
    assert_eq!(
        xmlencode("a<b> & \"c\" 'd'"),
        "a&lt;b&gt; &amp; &quot;c&quot; &apos;d&apos;"
    );
    assert_eq!(xmlencode("&amp;"), "&amp;amp;");
}

#[test]
fn xmlencode_output_has_no_markup() {
    let out = xmlencode("<<>>\"\"''&&x");
    assert!(!out.contains('<'));
    assert!(!out.contains('>'));
    assert!(!out.contains('"'));
    assert!(!out.contains('\''));
    assert_eq!(out, "&lt;&lt;&gt;&gt;&quot;&quot;&apos;&apos;&amp;&amp;x");
}

#[test]
fn check_valid_xml_accepts_name_characters() {
    assert!(check_valid_xml("abc"));
    assert!(check_valid_xml("ABC_xyz_019"));
    assert!(check_valid_xml("_"));
    assert!(check_valid_xml(""));
}

#[test]
fn check_valid_xml_rejects_other_characters() {
    assert!(!check_valid_xml("a b"));
    assert!(!check_valid_xml("a-b"));
    assert!(!check_valid_xml("a<b"));
    assert!(!check_valid_xml("é"));
    assert!(!check_valid_xml("abc\n"));
    assert!(!check_valid_xml("\nabc"));
    assert!(!check_valid_xml("a.b"));
}

#[test]
fn check_element_messages() {
    assert_eq!(check_element("ok_1"), None);
    assert_eq!(check_element(""), Some("Xml element cannot be empty"));
    assert_eq!(
        check_element("no way"),
        Some("Xml element can only contain alphanumeric and underscores")
    );
}

#[test]
fn render_attributes_in_order() {
    let attrs = vec![attr("a", "1"), attr("b", "x<y")];
    assert_eq!(
        render_attributes(&attrs),
        Ok(" a=\"1\"  b=\"x&lt;y\" ".to_string())
    );
    assert_eq!(render_attributes(&Vec::new()), Ok(String::new()));
}

#[test]
fn render_attributes_reports_first_bad_key() {
    let attrs = vec![attr("a", "1"), attr("", "2"), attr("b c", "3")];
    assert_eq!(
        render_attributes(&attrs),
        Err("Xml attribute name cannot be empty")
    );
    let attrs = vec![attr("b c", "3"), attr("", "2")];
    assert_eq!(
        render_attributes(&attrs),
        Err("Xml attribute name can only contain alphanumeric and underscores")
    );
}

#[test]
fn set_param_escapes_value() {
    let mut c = Xmlmc::new("http://host/demo/xmlmc");
    assert_eq!(c.set_param("name", "a<b>&\"c\"'d'"), Ok(()));
    assert_eq!(
        c.get_params(),
        "<params><name>a&lt;b&gt;&amp;&quot;c&quot;&apos;d&apos;</name></params>"
    );
}

#[test]
fn set_param_keeps_call_order() {
    let mut c = Xmlmc::new("http://host/demo/xmlmc");
    assert_eq!(c.set_param("first", "1"), Ok(()));
    assert_eq!(c.set_param("second", "2"), Ok(()));
    assert_eq!(c.set_param("first", "3"), Ok(()));
    assert_eq!(
        c.get_params(),
        "<params><first>1</first><second>2</second><first>3</first></params>"
    );
}

#[test]
fn set_param_rejects_invalid_names() {
    let mut c = Xmlmc::new("http://host/demo/xmlmc");
    assert_eq!(c.set_param("", "v"), Err("Xml element cannot be empty"));
    assert_eq!(c.get_params(), "");
    assert_eq!(c.set_param("kept", "v"), Ok(()));
    let before = c.get_params();
    assert_eq!(
        c.set_param("bad name", "v"),
        Err("Xml element can only contain alphanumeric and underscores")
    );
    assert_eq!(c.get_params(), before);
    assert_eq!(c.set_param("", "v"), Err("Xml element cannot be empty"));
    assert_eq!(c.get_params(), before);
    assert_eq!(before, "<params><kept>v</kept></params>");
}

#[test]
fn open_and_close_reject_invalid_names() {
    let mut c = Xmlmc::new("http://host/demo/xmlmc");
    assert_eq!(c.open_element(""), Err("Xml element cannot be empty"));
    assert_eq!(
        c.open_element("a/b"),
        Err("Xml element can only contain alphanumeric and underscores")
    );
    assert_eq!(c.close_element(""), Err("Xml element cannot be empty"));
    assert_eq!(
        c.close_element("<a>"),
        Err("Xml element can only contain alphanumeric and underscores")
    );
    assert_eq!(c.get_params(), "");
}

#[test]
fn clear_params_empties_output() {
    let mut c = Xmlmc::new("http://host/demo/xmlmc");
    c.clear_params();
    assert_eq!(c.get_params(), "");
    c.set_param("a", "b").unwrap();
    c.open_element("c").unwrap();
    c.clear_params();
    assert_eq!(c.get_params(), "");
    c.set_param("d", "e").unwrap();
    assert_eq!(c.get_params(), "<params><d>e</d></params>");
}

#[test]
fn nested_element_output() {
    let mut c = Xmlmc::new("http://host/demo/xmlmc");
    c.open_element("a").unwrap();
    c.set_param("b", "v").unwrap();
    c.close_element("a").unwrap();
    assert_eq!(c.get_params(), "<params><a><b>v</b></a></params>");
}

#[test]
fn get_params_does_not_wrap_twice() {
    let mut c = Xmlmc::new("http://host/demo/xmlmc");
    c.set_param("a", "b").unwrap();
    assert_eq!(c.get_params(), "<params><a>b</a></params>");
    assert_eq!(c.get_params(), "<params><a>b</a></params>");
}

#[test]
fn set_param_attr_scenario() {
    let mut c = Xmlmc::new("http://host/demo/xmlmc");
    assert_eq!(
        c.set_param_attr("test2", "value2", vec![attr("attr1", "attr'value1")]),
        Ok(())
    );
    assert_eq!(
        c.get_params(),
        "<params><test2 attr1=\"attr&apos;value1\" >value2</test2></params>"
    );
}

#[test]
fn set_param_attr_without_attributes() {
    let mut c = Xmlmc::new("http://host/demo/xmlmc");
    assert_eq!(c.set_param_attr("k", "<v>", Vec::new()), Ok(()));
    assert_eq!(c.get_params(), "<params><k>&lt;v&gt;</k></params>");
}

#[test]
fn set_param_attr_is_all_or_nothing() {
    let mut c = Xmlmc::new("http://host/demo/xmlmc");
    c.set_param("kept", "v").unwrap();
    assert_eq!(
        c.set_param_attr("k", "v", vec![attr("good", "1"), attr("", "2")]),
        Err("Xml attribute name cannot be empty")
    );
    assert_eq!(
        c.set_param_attr("k", "v", vec![attr("good", "1"), attr("b-d", "2")]),
        Err("Xml attribute name can only contain alphanumeric and underscores")
    );
    assert_eq!(
        c.set_param_attr("", "v", vec![attr("b-d", "2")]),
        Err("Xml element cannot be empty")
    );
    assert_eq!(
        c.set_param_attr("k k", "v", vec![attr("", "2")]),
        Err("Xml element can only contain alphanumeric and underscores")
    );
    assert_eq!(c.get_params(), "<params><kept>v</kept></params>");
}
