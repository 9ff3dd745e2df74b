use toml_vtab::document::{parse_document, ParseError};
use toml_vtab::json::encode;
use toml_vtab::value::{convert, ConvertError, Doc, GenericValue};

fn text_of(d: &Doc) -> String {
    encode(&convert(d).unwrap())
}

#[test]
fn scalars_convert_to_their_generic_forms() {
    assert!(matches!(convert(&Doc::Str("x".to_string())), Ok(GenericValue::Str(s)) if s == "x"));
    assert!(matches!(convert(&Doc::Int(-7)), Ok(GenericValue::Int(-7))));
    assert!(matches!(convert(&Doc::Bool(true)), Ok(GenericValue::Bool(true))));
    let n = serde_json::Number::from_f64(1.5).unwrap();
    assert!(matches!(convert(&Doc::Float(Some(n.clone()))), Ok(GenericValue::Float(m)) if m == n));
    assert!(matches!(
        convert(&Doc::Datetime("1979-05-27T07:32:00Z".to_string())),
        Ok(GenericValue::Str(s)) if s == "1979-05-27T07:32:00Z"
    ));
}

#[test]
fn non_finite_float_is_a_conversion_error() {
    assert_eq!(serde_json::Number::from_f64(f64::INFINITY), None);
    let nested = Doc::Table(vec![(
        "a".to_string(),
        Doc::Array(vec![Doc::Int(1), Doc::Float(serde_json::Number::from_f64(f64::NAN))]),
    )]);
    assert!(matches!(convert(&nested), Err(ConvertError::NonFiniteFloat)));
    assert!(matches!(convert(&Doc::Float(None)), Err(ConvertError::NonFiniteFloat)));
}

#[test]
fn encoding_is_compact_json() {
    let d = Doc::Table(vec![
        ("name".to_string(), Doc::Str("x".to_string())),
        (
            "keywords".to_string(),
            Doc::Array(vec![Doc::Str("foo".to_string()), Doc::Str("bar".to_string())]),
        ),
        ("n".to_string(), Doc::Int(3)),
        ("f".to_string(), Doc::Float(serde_json::Number::from_f64(0.5))),
        ("ok".to_string(), Doc::Bool(false)),
    ]);
    assert_eq!(
        text_of(&d),
        r#"{"f":0.5,"keywords":["foo","bar"],"n":3,"name":"x","ok":false}"#
    );
    assert_eq!(encode(&GenericValue::Null), "null");
    assert_eq!(text_of(&Doc::Array(vec![])), "[]");
}

#[test]
fn every_finite_document_converts() {
    let text = "a = 1\nb = 2.5\nc = \"s\"\nd = [true, false]\ne = 1979-05-27T07:32:00Z\n[f]\ng = [[1], [2, 3]]\n";
    let doc = parse_document(text).unwrap();
    assert_eq!(
        text_of(&doc),
        r#"{"a":1,"b":2.5,"c":"s","d":[true,false],"e":"1979-05-27T07:32:00Z","f":{"g":[[1],[2,3]]}}"#
    );
}

#[test]
fn parse_rejects_invalid_toml() {
    assert!(matches!(parse_document("a = "), Err(ParseError::Syntax(_))));
    assert!(matches!(parse_document("[x\n"), Err(ParseError::Syntax(_))));
    assert!(matches!(parse_document(""), Ok(Doc::Table(t)) if t.is_empty()));
}

#[test]
fn parse_reads_infinite_float_as_none() {
    let doc = parse_document("x = inf").unwrap();
    match doc {
        Doc::Table(entries) => {
            assert_eq!(entries.len(), 1);
            assert_eq!(entries[0].0, "x");
            assert!(matches!(entries[0].1, Doc::Float(None)));
        }
        _ => panic!("a document is a table"),
    }
}
