use maze_service::command::ResolvedAlgorithm;
use maze_service::handler::{
    EngineError, EngineOutput, HandlerError, RequestBody, prepare, respond,
};
use maze_service::request::{Corner, DecodeError, Dimensions, Direction, Field, OutputType};

#[test]
fn binary_tree_body_derives_defaulted_command() {
    let body = RequestBody::Text(
        "{\"dimensions\":{\"height\":5,\"width\":5},\"alg\":\"bt\"}".to_string(),
    );
    let c = prepare(&body).unwrap();
    assert_eq!(c.dimensions, Dimensions { height: 5, width: 5 });
    assert_eq!(c.algorithm, ResolvedAlgorithm::BinaryTree { start_corner: Corner::NorthWest });
    assert_eq!(c.output_type, OutputType::Binary);
}

#[test]
fn side_winder_body_derives_requested_direction() {
    let body = RequestBody::Text(
        "{\"dimensions\":{\"height\":3,\"width\":4},\"algorithm\":\"side-winder\",\"direction\":\"e\"}"
            .to_string(),
    );
    let c = prepare(&body).unwrap();
    assert_eq!(c.dimensions, Dimensions { height: 3, width: 4 });
    assert_eq!(
        c.algorithm,
        ResolvedAlgorithm::SideWinder { traversal_direction: Direction::East }
    );
    assert_eq!(c.output_type, OutputType::Binary);
}

#[test]
fn unknown_algorithm_token_fails_the_invocation() {
    let body = RequestBody::Text(
        "{\"dimensions\":{\"height\":2,\"width\":2},\"alg\":\"xx\"}".to_string(),
    );
    assert_eq!(
        prepare(&body),
        Err(HandlerError::Decode(DecodeError::UnrecognizedToken(Field::Algorithm)))
    );
}

#[test]
fn non_text_body_is_invalid() {
    assert_eq!(prepare(&RequestBody::Empty), Err(HandlerError::InvalidBody));
    assert_eq!(
        prepare(&RequestBody::Binary(vec![0x7b, 0x7d])),
        Err(HandlerError::InvalidBody)
    );
}

#[test]
fn binary_output_becomes_the_response_bytes() {
    let bytes = vec![1, 2, 3, 4];
    assert_eq!(respond(Ok(EngineOutput::Bin(bytes.clone()))), Ok(bytes));
}

#[test]
fn ascii_output_is_unsupported() {
    let out = EngineOutput::Ascii("+--+\n|  |\n+--+\n".to_string());
    assert_eq!(respond(Ok(out)), Err(HandlerError::UnsupportedOutput));
}

#[test]
fn engine_failure_is_fatal() {
    assert_eq!(respond(Err(EngineError)), Err(HandlerError::EngineFailure));
}

#[test]
fn failures_carry_descriptive_messages() {
    assert_eq!(HandlerError::InvalidBody.message(), "Invalid request body");
    assert_eq!(HandlerError::EngineFailure.message(), "Failure generating maze");
    assert_eq!(HandlerError::UnsupportedOutput.message(), "Unsupported output type");
    assert_eq!(
        HandlerError::Decode(DecodeError::Syntax).message(),
        "request body is not valid JSON"
    );
    assert_eq!(
        HandlerError::Decode(DecodeError::MissingField(Field::Height)).message(),
        "missing required field: height"
    );
    assert_eq!(
        HandlerError::Decode(DecodeError::TypeMismatch(Field::Dimensions)).message(),
        "wrong type for field: dimensions"
    );
    assert_eq!(
        HandlerError::Decode(DecodeError::UnrecognizedToken(Field::Corner)).message(),
        "unrecognized token for field: corner"
    );
}
