use maze_service::request::{
    Algorithm, Corner, DecodeError, Direction, Field, MazeRequest, OutputType, decode_request,
};

#[test]
fn algorithm_aliases_decode_to_same_variant() {
    assert_eq!(Algorithm::from_token("ab"), Some(Algorithm::AldousBroder));
    assert_eq!(Algorithm::from_token("aldous-broder"), Some(Algorithm::AldousBroder));
    assert_eq!(Algorithm::from_token("bt"), Some(Algorithm::BinaryTree));
    assert_eq!(Algorithm::from_token("binary-tree"), Some(Algorithm::BinaryTree));
    assert_eq!(Algorithm::from_token("sw"), Some(Algorithm::SideWinder));
    assert_eq!(Algorithm::from_token("side-winder"), Some(Algorithm::SideWinder));
}

#[test]
fn corner_aliases_decode_to_same_variant() {
    assert_eq!(Corner::from_token("nw"), Some(Corner::NorthWest));
    assert_eq!(Corner::from_token("northwest"), Some(Corner::NorthWest));
    assert_eq!(Corner::from_token("ne"), Some(Corner::NorthEast));
    assert_eq!(Corner::from_token("northeast"), Some(Corner::NorthEast));
    assert_eq!(Corner::from_token("se"), Some(Corner::SouthEast));
    assert_eq!(Corner::from_token("southeast"), Some(Corner::SouthEast));
    assert_eq!(Corner::from_token("sw"), Some(Corner::SouthWest));
    assert_eq!(Corner::from_token("southwest"), Some(Corner::SouthWest));
}

#[test]
fn direction_aliases_decode_to_same_variant() {
    assert_eq!(Direction::from_token("n"), Some(Direction::North));
    assert_eq!(Direction::from_token("north"), Some(Direction::North));
    assert_eq!(Direction::from_token("e"), Some(Direction::East));
    assert_eq!(Direction::from_token("east"), Some(Direction::East));
    assert_eq!(Direction::from_token("s"), Some(Direction::South));
    assert_eq!(Direction::from_token("south"), Some(Direction::South));
    assert_eq!(Direction::from_token("w"), Some(Direction::West));
    assert_eq!(Direction::from_token("west"), Some(Direction::West));
}

#[test]
fn output_type_aliases_decode_to_same_variant() {
    assert_eq!(OutputType::from_token("bin"), Some(OutputType::Binary));
    assert_eq!(OutputType::from_token("binary"), Some(OutputType::Binary));
    assert_eq!(OutputType::from_token("ascii"), Some(OutputType::Ascii));
}

#[test]
fn unknown_tokens_are_rejected() {
    assert_eq!(Algorithm::from_token("xx"), None);
    assert_eq!(Algorithm::from_token(""), None);
    assert_eq!(Algorithm::from_token("AB"), None);
    assert_eq!(Corner::from_token("north"), None);
    assert_eq!(Direction::from_token("nw"), None);
    assert_eq!(OutputType::from_token("text"), None);
}

#[test]
fn full_request_decodes() {
    let r = decode_request(
        "{\"dimensions\":{\"height\":7,\"width\":9},\"algorithm\":\"bt\",\"corner\":\"se\",\"direction\":\"w\"}",
    )
    .unwrap();
    assert_eq!(r.dimensions.height, 7);
    assert_eq!(r.dimensions.width, 9);
    assert_eq!(r.algorithm, Algorithm::BinaryTree);
    assert_eq!(r.corner, Some(Corner::SouthEast));
    assert_eq!(r.direction, Some(Direction::West));
}

#[test]
fn algorithm_field_name_aliases_agree() {
    let long = decode_request("{\"dimensions\":{\"height\":1,\"width\":2},\"algorithm\":\"ab\"}")
        .unwrap();
    let short =
        decode_request("{\"dimensions\":{\"height\":1,\"width\":2},\"alg\":\"ab\"}").unwrap();
    assert_eq!(long, short);
}

#[test]
fn optional_fields_may_be_absent() {
    let r = decode_request("{\"dimensions\":{\"height\":4,\"width\":4},\"alg\":\"sw\"}").unwrap();
    assert_eq!(r.corner, None);
    assert_eq!(r.direction, None);
}

#[test]
fn members_outside_the_schema_are_ignored() {
    let r = decode_request(
        "{\"dimensions\":{\"height\":4,\"width\":4},\"alg\":\"ab\",\"seed\":12,\"note\":\"x\"}",
    )
    .unwrap();
    assert_eq!(r.algorithm, Algorithm::AldousBroder);
}

#[test]
fn invalid_json_is_a_syntax_error() {
    assert_eq!(decode_request("not json at all"), Err(DecodeError::Syntax));
    assert_eq!(decode_request(""), Err(DecodeError::Syntax));
    assert_eq!(decode_request("{\"dimensions\":"), Err(DecodeError::Syntax));
}

#[test]
fn non_object_body_is_a_type_mismatch() {
    assert_eq!(decode_request("[1,2,3]"), Err(DecodeError::TypeMismatch(Field::Body)));
    assert_eq!(decode_request("42"), Err(DecodeError::TypeMismatch(Field::Body)));
}

#[test]
fn missing_required_fields_are_reported() {
    assert_eq!(
        decode_request("{\"alg\":\"ab\"}"),
        Err(DecodeError::MissingField(Field::Dimensions))
    );
    assert_eq!(
        decode_request("{\"dimensions\":{\"width\":2},\"alg\":\"ab\"}"),
        Err(DecodeError::MissingField(Field::Height))
    );
    assert_eq!(
        decode_request("{\"dimensions\":{\"height\":2},\"alg\":\"ab\"}"),
        Err(DecodeError::MissingField(Field::Width))
    );
    assert_eq!(
        decode_request("{\"dimensions\":{\"height\":2,\"width\":2}}"),
        Err(DecodeError::MissingField(Field::Algorithm))
    );
}

#[test]
fn mistyped_fields_are_reported() {
    assert_eq!(
        decode_request("{\"dimensions\":3,\"alg\":\"ab\"}"),
        Err(DecodeError::TypeMismatch(Field::Dimensions))
    );
    assert_eq!(
        decode_request("{\"dimensions\":{\"height\":\"two\",\"width\":2},\"alg\":\"ab\"}"),
        Err(DecodeError::TypeMismatch(Field::Height))
    );
    assert_eq!(
        decode_request("{\"dimensions\":{\"height\":2,\"width\":-2},\"alg\":\"ab\"}"),
        Err(DecodeError::TypeMismatch(Field::Width))
    );
    assert_eq!(
        decode_request("{\"dimensions\":{\"height\":2,\"width\":2.5},\"alg\":\"ab\"}"),
        Err(DecodeError::TypeMismatch(Field::Width))
    );
    assert_eq!(
        decode_request("{\"dimensions\":{\"height\":2,\"width\":2},\"alg\":7}"),
        Err(DecodeError::TypeMismatch(Field::Algorithm))
    );
    assert_eq!(
        decode_request("{\"dimensions\":{\"height\":2,\"width\":2},\"alg\":\"ab\",\"corner\":1}"),
        Err(DecodeError::TypeMismatch(Field::Corner))
    );
    assert_eq!(
        decode_request(
            "{\"dimensions\":{\"height\":2,\"width\":2},\"alg\":\"ab\",\"direction\":[]}",
        ),
        Err(DecodeError::TypeMismatch(Field::Direction))
    );
}

#[test]
fn unrecognized_tokens_fail_the_decode() {
    assert_eq!(
        decode_request("{\"dimensions\":{\"height\":2,\"width\":2},\"alg\":\"xx\"}"),
        Err(DecodeError::UnrecognizedToken(Field::Algorithm))
    );
    assert_eq!(
        decode_request(
            "{\"dimensions\":{\"height\":2,\"width\":2},\"alg\":\"bt\",\"corner\":\"north\"}",
        ),
        Err(DecodeError::UnrecognizedToken(Field::Corner))
    );
    assert_eq!(
        decode_request(
            "{\"dimensions\":{\"height\":2,\"width\":2},\"alg\":\"sw\",\"direction\":\"up\"}",
        ),
        Err(DecodeError::UnrecognizedToken(Field::Direction))
    );
}

#[test]
fn zero_dimensions_are_accepted() {
    let r = decode_request("{\"dimensions\":{\"height\":0,\"width\":0},\"alg\":\"ab\"}").unwrap();
    assert_eq!(r.dimensions.height, 0);
    assert_eq!(r.dimensions.width, 0);
}

#[test]
fn largest_dimensions_are_accepted() {
    let body = format!(
        "{{\"dimensions\":{{\"height\":{},\"width\":{}}},\"alg\":\"ab\"}}",
        u64::MAX,
        u64::MAX
    );
    let r = decode_request(&body).unwrap();
    assert_eq!(r.dimensions.height, u64::MAX);
    assert_eq!(r.dimensions.width, u64::MAX);
}

#[test]
fn decoding_is_all_or_nothing() {
    // A good dimensions object does not survive a bad algorithm token.
    let r: Result<MazeRequest, DecodeError> =
        decode_request("{\"dimensions\":{\"height\":5,\"width\":5},\"alg\":\"zz\"}");
    assert!(r.is_err());
}
