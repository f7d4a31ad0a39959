use blandango::{collection_name, extract_name, name, Doc, Edge, Record};

struct MyTestData {}

impl Record for MyTestData {
    fn full_name() -> String {
        "naming_tests::MyTestData".to_owned()
    }
}

struct SampleData {}

impl Record for SampleData {
    fn full_name() -> String {
        "query_tests::SampleData".to_owned()
    }
}

#[test]
fn test_name_scheme() {
    assert_eq!(name::<MyTestData>(), "my_test_data");

    type MyTestWrapper = Doc<MyTestData>;
    assert_eq!(name::<MyTestWrapper>(), "my_test_data");
}

#[test]
fn test_collection_name_scheme() {
    type MyCollection = Doc<MyTestData>;

    assert_eq!(collection_name::<Doc<MyTestData>>(), "my_test_data");
    assert_eq!(collection_name::<MyCollection>(), "my_test_data");
}

#[test]
fn test_string_parse() {
    let trial: &str = "Some::Cool::Object::TestObjectCollection";
    assert_eq!(extract_name(trial), "test_object_collection");
}

#[test]
fn wrappers_are_transparent() {
    assert_eq!(name::<SampleData>(), "sample_data");
    assert_eq!(name::<Doc<SampleData>>(), name::<SampleData>());
    assert_eq!(name::<Edge<SampleData>>(), name::<SampleData>());
    assert_eq!(name::<Doc<Edge<SampleData>>>(), name::<SampleData>());
    assert_eq!(name::<Edge<Doc<SampleData>>>(), "sample_data");
}

#[test]
fn wrapper_full_names_nest() {
    assert_eq!(
        <Doc<Edge<SampleData>> as Record>::full_name(),
        "blandango::document::Doc<blandango::document::Edge<query_tests::SampleData>>"
    );
}

#[test]
fn doc_reports_the_name_of_its_record() {
    let doc = Doc {
        keys: blandango::ArangoKeys {
            id: "sample_data/1".to_owned(),
            key: "1".to_owned(),
            rev: "r".to_owned(),
        },
        record: SampleData {},
        modified_on: 2,
        created_on: 1,
    };
    assert_eq!(doc.name(), "sample_data");
}

#[test]
fn qualified_wrapper_names_unwrap() {
    assert_eq!(extract_name("blandango::document::Doc<my_crate::model::SampleData>"), "sample_data");
    assert_eq!(extract_name("blandango::document::Edge<my_crate::EdgeData>"), "edge_data");
    assert_eq!(
        extract_name("blandango::Doc<blandango::Edge<document_tests::EdgeData>>"),
        "edge_data"
    );
}

#[test]
fn generic_arguments_of_other_types_are_stripped() {
    assert_eq!(extract_name("alloc::vec::Vec<u8>"), "vec");
    assert_eq!(extract_name("core::option::Option<my::SampleData>"), "option");
    assert_eq!(extract_name("my::Wrapper<my::Inner>"), "wrapper");
}

#[test]
fn only_a_wrapper_is_unwrapped() {
    assert_eq!(extract_name("alloc::vec::Vec<app::DocumentInfo>"), "vec");
    assert_eq!(extract_name("alloc::vec::Vec<blandango::document::Doc<app::Info>>"), "vec");
    assert_eq!(extract_name("my::Documents<x::Inner>"), "documents");
    assert_eq!(extract_name("my::EdgeList<x::Inner>"), "edge_list");
    assert_eq!(extract_name("my::MyDoc<x::Inner>"), "my_doc");
    assert_eq!(extract_name("my::Docs::Holder<x::Inner>"), "holder");
}

#[test]
fn a_wrapper_is_known_by_its_own_name_whatever_its_path() {
    assert_eq!(extract_name("Doc<x::Inner>"), "inner");
    assert_eq!(extract_name("Edge<x::Inner>"), "inner");
    assert_eq!(extract_name("some::other::path::Doc<x::Inner>"), "inner");
    assert_eq!(extract_name("some::other::path::Edge<x::Inner>"), "inner");
    assert_eq!(extract_name("Doc<Edge<Doc<x::InnerMost>>>"), "inner_most");
    assert_eq!(extract_name("Doc<alloc::vec::Vec<x::Inner>>"), "vec");
}

#[test]
fn a_name_that_mentions_a_wrapper_without_arguments_is_plain() {
    assert_eq!(extract_name("my::Document"), "document");
    assert_eq!(extract_name("my::EdgeCase"), "edge_case");
    assert_eq!(extract_name("Doc"), "doc");
}

#[test]
fn the_outermost_brackets_are_taken() {
    // The stretch runs from the first `<` to the last `>`.
    assert_eq!(extract_name("Doc<a::First>, Doc<b::Second>"), "first>,_doc");
    assert_eq!(extract_name("Doc<my::Pair<a::Left, b::Right>>"), "pair");
}

#[test]
fn brackets_need_something_between_them() {
    assert_eq!(extract_name("my::Doc<>"), "doc");
    assert_eq!(extract_name("my::Doc<x"), "doc");
}

#[test]
fn a_line_feed_ends_a_bracketed_stretch() {
    assert_eq!(extract_name("Doc<a\nb>"), "doc");
    assert_eq!(extract_name("Doc<a\nb> Edge<my::Inner>"), "inner");
}

#[test]
fn the_stretch_starts_at_the_first_bracket_that_can_start_one() {
    assert_eq!(extract_name("Doc<\n<x::Inner>"), "inner");
    assert_eq!(extract_name("Edge<\n\n<y::Inner>"), "inner");
}

#[test]
fn segments_are_parted_from_left_to_right() {
    assert_eq!(extract_name("a::b::CamelCase"), "camel_case");
    assert_eq!(extract_name("a:::TailData"), ":tail_data");
    assert_eq!(extract_name("a::::TailData"), "tail_data");
    assert_eq!(extract_name("a::"), "");
    assert_eq!(extract_name(""), "");
    assert_eq!(extract_name("NoPath"), "no_path");
}

#[test]
fn names_are_written_in_snake_case() {
    assert_eq!(extract_name("IntegrationTest"), "integration_test");
    assert_eq!(extract_name("already_snake"), "already_snake");
    assert_eq!(extract_name("HTTPRequest"), "http_request");
}

#[test]
fn naming_is_repeatable() {
    assert_eq!(name::<MyTestData>(), name::<MyTestData>());
    assert_eq!(extract_name("x::FromData"), extract_name("y::FromData"));
}
