use helio::ordinal_scale::OrdinalScale;
use helio::ordinal_scale::OrdinalScaleBuilder;

fn strings(items: &[&str]) -> Vec<String> {
    items.iter().map(|s| s.to_string()).collect()
}

#[test]
fn ordinal_scale_builder_works() {
    let scale: OrdinalScale = OrdinalScaleBuilder::default()
        .domain(strings(&["a", "b", "c", "d"]))
        .range(strings(&["one", "two", "three", "four"]))
        .build()
        .unwrap();
    println!("{:?}", &scale);

    assert_eq!(scale.domain, ["a", "b", "c", "d"]);
    assert_eq!(scale.get(&"a".to_string()).unwrap(), "one");
}

#[test]
fn ordinal_scale_call_works() {
    let mut scale: OrdinalScale = OrdinalScaleBuilder::default()
        .domain(strings(&["a", "b", "c", "d"]))
        .range(strings(&["one", "two", "three", "four"]))
        .build()
        .unwrap();

    assert_eq!(
        scale.call(&strings(&["d", "b", "c", "a", "r"])),
        ["four", "two", "three", "one", ""]
    );

    scale.unknown = "paco".to_string();
    assert_eq!(
        scale.call(&strings(&["d", "b", "c", "a", "r"])),
        ["four", "two", "three", "one", "paco"]
    );
}

#[test]
fn ordinal_lookup_with_unknown_fallback() {
    let scale: OrdinalScale = OrdinalScaleBuilder::default()
        .domain(strings(&["a", "b"]))
        .range(strings(&["X", "Y"]))
        .unknown("?".to_string())
        .build()
        .unwrap();

    assert_eq!(scale.call(&strings(&["b", "a", "z"])), ["Y", "X", "?"]);
}

#[test]
fn build_requires_domain_and_range() {
    let missing_both = OrdinalScaleBuilder::default().build();
    assert_eq!(missing_both.unwrap_err(), "domain must be initialized");

    let missing_range = OrdinalScaleBuilder::default()
        .domain(strings(&["a"]))
        .build();
    assert_eq!(missing_range.unwrap_err(), "range must be initialized");

    let missing_domain = OrdinalScaleBuilder::default()
        .range(strings(&["one"]))
        .build();
    assert_eq!(missing_domain.unwrap_err(), "domain must be initialized");
}

#[test]
fn duplicate_keys_resolve_to_last_pairing() {
    let scale: OrdinalScale = OrdinalScaleBuilder::default()
        .domain(strings(&["a", "b", "a"]))
        .range(strings(&["one", "two", "three"]))
        .build()
        .unwrap();

    assert_eq!(scale.call(&strings(&["a", "b"])), ["three", "two"]);
}

#[test]
fn extra_domain_keys_behave_as_unknown() {
    let scale: OrdinalScale = OrdinalScaleBuilder::default()
        .domain(strings(&["a", "b", "c"]))
        .range(strings(&["one", "two"]))
        .unknown("?".to_string())
        .build()
        .unwrap();

    assert_eq!(scale.call(&strings(&["a", "b", "c"])), ["one", "two", "?"]);
    assert_eq!(scale.get(&"c".to_string()), None);
}

#[test]
fn unknown_defaults_to_the_empty_string() {
    let scale: OrdinalScale = OrdinalScaleBuilder::default()
        .domain(strings(&[]))
        .range(strings(&[]))
        .build()
        .unwrap();

    assert_eq!(scale.unknown, "");
    assert_eq!(scale.call(&strings(&["anything"])), [""]);
}

#[test]
fn call_preserves_order_and_length() {
    let scale: OrdinalScale = OrdinalScaleBuilder::default()
        .domain(strings(&["x", "y"]))
        .range(strings(&["1", "2"]))
        .build()
        .unwrap();

    let data = strings(&["y", "y", "x", "nope", "x"]);
    let out = scale.call(&data);
    assert_eq!(out.len(), data.len());
    assert_eq!(out, ["2", "2", "1", "", "1"]);
}
