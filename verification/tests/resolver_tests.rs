use maven_downloader::PropValue;
use maven_downloader::Properties;
use maven_downloader::PropertyTable;
use maven_downloader::TextOrNode;
use maven_downloader::props_to_map;
use maven_downloader::resolver::resolve_placeholder;

fn table(pairs: &[(&str, &str)]) -> PropertyTable {
    let mut t = PropertyTable::new();
    for (k, v) in pairs {
        t.insert(k.to_string(), v.to_string());
    }
    t
}

#[test]
fn resolves_known_key() {
    let props = table(&[("foo", "1.2.3")]);
    let r = resolve_placeholder(&"${foo}".to_string(), &props, &None, &None);
    assert_eq!(r, "1.2.3");
}

#[test]
fn unknown_key_passes_through_verbatim() {
    let props = table(&[]);
    let r = resolve_placeholder(&"${missing}".to_string(), &props, &None, &None);
    assert_eq!(r, "${missing}");
}

#[test]
fn project_version_uses_own_version() {
    let props = table(&[]);
    let r = resolve_placeholder(
        &"${project.version}".to_string(),
        &props,
        &Some("2.0".to_string()),
        &None,
    );
    assert_eq!(r, "2.0");
}

#[test]
fn project_version_falls_back_to_parent() {
    let props = table(&[]);
    let r = resolve_placeholder(
        &"${project.version}".to_string(),
        &props,
        &None,
        &Some("3.1".to_string()),
    );
    assert_eq!(r, "3.1");
}

#[test]
fn project_version_unresolved_passes_through() {
    let props = table(&[]);
    let r = resolve_placeholder(&"${project.version}".to_string(), &props, &None, &None);
    assert_eq!(r, "${project.version}");
}

#[test]
fn non_placeholder_returned_unchanged() {
    let props = table(&[("1.0", "io")]);
    let r = resolve_placeholder(&"1.0".to_string(), &props, &None, &None);
    assert_eq!(r, "1.0");
}

#[test]
fn key_with_dots_is_looked_up() {
    let props = table(&[("dep.level", "7")]);
    let r = resolve_placeholder(&"${dep.level}".to_string(), &props, &None, &None);
    assert_eq!(r, "7");
}

#[test]
fn later_property_shadows_earlier() {
    let props = table(&[("k", "old"), ("k", "new")]);
    let r = resolve_placeholder(&"${k}".to_string(), &props, &None, &None);
    assert_eq!(r, "new");
}

#[test]
fn text_or_node_into_string() {
    assert_eq!(
        TextOrNode::Text("1.4".to_string()).into_string(),
        Some("1.4".to_string())
    );
    assert_eq!(
        TextOrNode::Node { text: Some("2.8".to_string()) }.into_string(),
        Some("2.8".to_string())
    );
    assert_eq!(TextOrNode::Node { text: None }.into_string(), None);
}

#[test]
fn prop_value_into_string() {
    assert_eq!(
        PropValue::Text("a".to_string()).into_string(),
        Some("a".to_string())
    );
    assert_eq!(
        PropValue::Node { text: Some("b".to_string()) }.into_string(),
        Some("b".to_string())
    );
    assert_eq!(PropValue::Node { text: None }.into_string(), None);
}

#[test]
fn props_to_map_flattens_and_drops_empty_nodes() {
    let props = Properties {
        values: vec![
            ("one".to_string(), PropValue::Text("1".to_string())),
            (
                "two".to_string(),
                PropValue::Node { text: Some("2".to_string()) },
            ),
            ("empty".to_string(), PropValue::Node { text: None }),
        ],
    };
    let t = props_to_map(Some(props));
    assert_eq!(t.get(&"one".to_string()), Some("1".to_string()));
    assert_eq!(t.get(&"two".to_string()), Some("2".to_string()));
    assert_eq!(t.get(&"empty".to_string()), None);
    assert_eq!(t.get(&"three".to_string()), None);
}

#[test]
fn props_to_map_of_nothing_is_empty() {
    let t = props_to_map(None);
    assert_eq!(t.get(&"anything".to_string()), None);
}
