//! The decoded request: enumerated parameters with their accepted token
//! aliases, the request schema, and the decoder from a JSON body text.

use vstd::prelude::*;
use vstd::string::StringExecFns;
use crate::json::{JsonData, json_of_text, parse_json, json_is_object, json_get, json_as_u64,
    json_as_string};

verus! {

/// The maze-generation algorithm a request selects.
#[derive(Clone, Copy, PartialEq, Eq, Debug)]
pub enum Algorithm {
    AldousBroder,
    BinaryTree,
    SideWinder,
}

/// The corner a binary-tree walk starts from.
#[derive(Clone, Copy, PartialEq, Eq, Debug)]
pub enum Corner {
    NorthWest,
    NorthEast,
    SouthEast,
    SouthWest,
}

/// The direction a side-winder walk traverses in.
#[derive(Clone, Copy, PartialEq, Eq, Debug)]
pub enum Direction {
    North,
    East,
    South,
    West,
}

/// The encoding of the generated maze.
#[derive(Clone, Copy, PartialEq, Eq, Debug)]
pub enum OutputType {
    Binary,
    Ascii,
}

/// The request fields a decode failure can be attributed to; `Body` stands
/// for the body as a whole.
#[derive(Clone, Copy, PartialEq, Eq, Debug)]
pub enum Field {
    Body,
    Dimensions,
    Height,
    Width,
    Algorithm,
    Corner,
    Direction,
}

/// Why decoding a request body failed.
#[derive(Clone, Copy, PartialEq, Eq, Debug)]
pub enum DecodeError {
    /// The body is not valid JSON.
    Syntax,
    /// A required field is absent.
    MissingField(Field),
    /// A field holds a value of the wrong type.
    TypeMismatch(Field),
    /// An enumerated field holds a token outside its alias table.
    UnrecognizedToken(Field),
}

/// The maze's extent: rows and columns of cells.
#[derive(Clone, Copy, PartialEq, Eq, Debug)]
pub struct Dimensions {
    pub height: u64,
    pub width: u64,
}

/// The decoded request: required dimensions and algorithm, optional corner
/// and direction. A corner or direction is kept even when the chosen
/// algorithm has no use for it.
#[derive(Clone, PartialEq, Eq, Debug)]
pub struct MazeRequest {
    pub dimensions: Dimensions,
    pub algorithm: Algorithm,
    pub corner: Option<Corner>,
    pub direction: Option<Direction>,
}

/// The alias table of the algorithm selector.
pub open spec fn spec_algorithm_from_token(t: Seq<char>) -> Option<Algorithm> {
    if t == "ab"@ || t == "aldous-broder"@ {
        Some(Algorithm::AldousBroder)
    } else if t == "bt"@ || t == "binary-tree"@ {
        Some(Algorithm::BinaryTree)
    } else if t == "sw"@ || t == "side-winder"@ {
        Some(Algorithm::SideWinder)
    } else {
        None
    }
}

/// The alias table of the corners.
pub open spec fn spec_corner_from_token(t: Seq<char>) -> Option<Corner> {
    if t == "nw"@ || t == "northwest"@ {
        Some(Corner::NorthWest)
    } else if t == "ne"@ || t == "northeast"@ {
        Some(Corner::NorthEast)
    } else if t == "se"@ || t == "southeast"@ {
        Some(Corner::SouthEast)
    } else if t == "sw"@ || t == "southwest"@ {
        Some(Corner::SouthWest)
    } else {
        None
    }
}

/// The alias table of the directions.
pub open spec fn spec_direction_from_token(t: Seq<char>) -> Option<Direction> {
    if t == "n"@ || t == "north"@ {
        Some(Direction::North)
    } else if t == "e"@ || t == "east"@ {
        Some(Direction::East)
    } else if t == "s"@ || t == "south"@ {
        Some(Direction::South)
    } else if t == "w"@ || t == "west"@ {
        Some(Direction::West)
    } else {
        None
    }
}

/// The alias table of the output types.
pub open spec fn spec_output_type_from_token(t: Seq<char>) -> Option<OutputType> {
    if t == "bin"@ || t == "binary"@ {
        Some(OutputType::Binary)
    } else if t == "ascii"@ {
        Some(OutputType::Ascii)
    } else {
        None
    }
}

/// True exactly when the token equals the given alias.
fn token_is(t: &str, alias: &str) -> (r: bool)
    ensures
        r == (t@ == alias@),
{
    let ts = String::from_str(t);
    let al = String::from_str(alias);
    ts == al
}

impl Algorithm {
    /// Resolve a textual token to its canonical algorithm, `None` on a token
    /// outside the alias table.
    pub fn from_token(t: &str) -> (r: Option<Algorithm>)
        ensures
            r == spec_algorithm_from_token(t@),
    {
        if token_is(t, "ab") || token_is(t, "aldous-broder") {
            Some(Algorithm::AldousBroder)
        } else if token_is(t, "bt") || token_is(t, "binary-tree") {
            Some(Algorithm::BinaryTree)
        } else if token_is(t, "sw") || token_is(t, "side-winder") {
            Some(Algorithm::SideWinder)
        } else {
            None
        }
    }
}

impl Corner {
    /// Resolve a textual token to its canonical corner, `None` on a token
    /// outside the alias table.
    pub fn from_token(t: &str) -> (r: Option<Corner>)
        ensures
            r == spec_corner_from_token(t@),
    {
        if token_is(t, "nw") || token_is(t, "northwest") {
            Some(Corner::NorthWest)
        } else if token_is(t, "ne") || token_is(t, "northeast") {
            Some(Corner::NorthEast)
        } else if token_is(t, "se") || token_is(t, "southeast") {
            Some(Corner::SouthEast)
        } else if token_is(t, "sw") || token_is(t, "southwest") {
            Some(Corner::SouthWest)
        } else {
            None
        }
    }
}

impl Direction {
    /// Resolve a textual token to its canonical direction, `None` on a token
    /// outside the alias table.
    pub fn from_token(t: &str) -> (r: Option<Direction>)
        ensures
            r == spec_direction_from_token(t@),
    {
        if token_is(t, "n") || token_is(t, "north") {
            Some(Direction::North)
        } else if token_is(t, "e") || token_is(t, "east") {
            Some(Direction::East)
        } else if token_is(t, "s") || token_is(t, "south") {
            Some(Direction::South)
        } else if token_is(t, "w") || token_is(t, "west") {
            Some(Direction::West)
        } else {
            None
        }
    }
}

impl OutputType {
    /// Resolve a textual token to its canonical output type, `None` on a
    /// token outside the alias table.
    pub fn from_token(t: &str) -> (r: Option<OutputType>)
        ensures
            r == spec_output_type_from_token(t@),
    {
        if token_is(t, "bin") || token_is(t, "binary") {
            Some(OutputType::Binary)
        } else if token_is(t, "ascii") {
            Some(OutputType::Ascii)
        } else {
            None
        }
    }
}

/// The meaning of one member of the `dimensions` object: required, and it
/// must be an integer that fits in `u64`.
pub open spec fn spec_dim_member(d: Map<Seq<char>, JsonData>, key: Seq<char>, f: Field) -> Result<
    u64,
    DecodeError,
> {
    if !d.contains_key(key) {
        Err(DecodeError::MissingField(f))
    } else {
        match d[key] {
            JsonData::Num(n) => if 0 <= n <= u64::MAX {
                Ok(n as u64)
            } else {
                Err(DecodeError::TypeMismatch(f))
            },
            _ => Err(DecodeError::TypeMismatch(f)),
        }
    }
}

/// The meaning of the required `dimensions` member of the body object.
pub open spec fn spec_dimensions_member(m: Map<Seq<char>, JsonData>) -> Result<
    Dimensions,
    DecodeError,
> {
    if !m.contains_key("dimensions"@) {
        Err(DecodeError::MissingField(Field::Dimensions))
    } else {
        match m["dimensions"@] {
            JsonData::Object(d) => match spec_dim_member(d, "height"@, Field::Height) {
                Ok(h) => match spec_dim_member(d, "width"@, Field::Width) {
                    Ok(w) => Ok(Dimensions { height: h, width: w }),
                    Err(e) => Err(e),
                },
                Err(e) => Err(e),
            },
            _ => Err(DecodeError::TypeMismatch(Field::Dimensions)),
        }
    }
}

/// The meaning of the required algorithm member, accepted under the field
/// name `algorithm` or, failing that, `alg`.
pub open spec fn spec_algorithm_member(m: Map<Seq<char>, JsonData>) -> Result<
    Algorithm,
    DecodeError,
> {
    let key = if m.contains_key("algorithm"@) {
        "algorithm"@
    } else {
        "alg"@
    };
    if !m.contains_key(key) {
        Err(DecodeError::MissingField(Field::Algorithm))
    } else {
        match m[key] {
            JsonData::Text(t) => match spec_algorithm_from_token(t) {
                Some(a) => Ok(a),
                None => Err(DecodeError::UnrecognizedToken(Field::Algorithm)),
            },
            _ => Err(DecodeError::TypeMismatch(Field::Algorithm)),
        }
    }
}

/// The meaning of the optional `corner` member: absent is accepted, present
/// it must be a recognized corner token.
pub open spec fn spec_corner_member(m: Map<Seq<char>, JsonData>) -> Result<
    Option<Corner>,
    DecodeError,
> {
    if !m.contains_key("corner"@) {
        Ok(None)
    } else {
        match m["corner"@] {
            JsonData::Text(t) => match spec_corner_from_token(t) {
                Some(c) => Ok(Some(c)),
                None => Err(DecodeError::UnrecognizedToken(Field::Corner)),
            },
            _ => Err(DecodeError::TypeMismatch(Field::Corner)),
        }
    }
}

/// The meaning of the optional `direction` member: absent is accepted,
/// present it must be a recognized direction token.
pub open spec fn spec_direction_member(m: Map<Seq<char>, JsonData>) -> Result<
    Option<Direction>,
    DecodeError,
> {
    if !m.contains_key("direction"@) {
        Ok(None)
    } else {
        match m["direction"@] {
            JsonData::Text(t) => match spec_direction_from_token(t) {
                Some(d) => Ok(Some(d)),
                None => Err(DecodeError::UnrecognizedToken(Field::Direction)),
            },
            _ => Err(DecodeError::TypeMismatch(Field::Direction)),
        }
    }
}

/// The meaning of decoding a parsed JSON value as a request: an object with
/// valid members, all-or-nothing. Members outside the schema are ignored.
pub open spec fn spec_decode_json(j: JsonData) -> Result<MazeRequest, DecodeError> {
    match j {
        JsonData::Object(m) => match spec_dimensions_member(m) {
            Ok(dims) => match spec_algorithm_member(m) {
                Ok(alg) => match spec_corner_member(m) {
                    Ok(c) => match spec_direction_member(m) {
                        Ok(d) => Ok(
                            MazeRequest {
                                dimensions: dims,
                                algorithm: alg,
                                corner: c,
                                direction: d,
                            },
                        ),
                        Err(e) => Err(e),
                    },
                    Err(e) => Err(e),
                },
                Err(e) => Err(e),
            },
            Err(e) => Err(e),
        },
        _ => Err(DecodeError::TypeMismatch(Field::Body)),
    }
}

/// The meaning of decoding a body text: parse it as JSON, then decode the
/// parsed value.
pub open spec fn spec_decode_text(s: Seq<char>) -> Result<MazeRequest, DecodeError> {
    match json_of_text(s) {
        Some(j) => spec_decode_json(j),
        None => Err(DecodeError::Syntax),
    }
}

/// Decode a request body text into a `MazeRequest`: all-or-nothing, each
/// failure attributed to the offending field.
pub fn decode_request(s: &str) -> (r: Result<MazeRequest, DecodeError>)
    ensures
        r == spec_decode_text(s@),
{
    let v = match parse_json(s) {
        Ok(v) => v,
        Err(_) => {
            return Err(DecodeError::Syntax);
        },
    };
    if !json_is_object(&v) {
        return Err(DecodeError::TypeMismatch(Field::Body));
    }
    let dims_val = match json_get(&v, "dimensions") {
        Some(d) => d,
        None => {
            return Err(DecodeError::MissingField(Field::Dimensions));
        },
    };
    if !json_is_object(dims_val) {
        return Err(DecodeError::TypeMismatch(Field::Dimensions));
    }
    let height = match json_get(dims_val, "height") {
        Some(h) => match json_as_u64(h) {
            Some(n) => n,
            None => {
                return Err(DecodeError::TypeMismatch(Field::Height));
            },
        },
        None => {
            return Err(DecodeError::MissingField(Field::Height));
        },
    };
    let width = match json_get(dims_val, "width") {
        Some(w) => match json_as_u64(w) {
            Some(n) => n,
            None => {
                return Err(DecodeError::TypeMismatch(Field::Width));
            },
        },
        None => {
            return Err(DecodeError::MissingField(Field::Width));
        },
    };
    let alg_val = match json_get(&v, "algorithm") {
        Some(a) => a,
        None => match json_get(&v, "alg") {
            Some(a) => a,
            None => {
                return Err(DecodeError::MissingField(Field::Algorithm));
            },
        },
    };
    let algorithm = match json_as_string(alg_val) {
        Some(t) => match Algorithm::from_token(t.as_str()) {
            Some(a) => a,
            None => {
                return Err(DecodeError::UnrecognizedToken(Field::Algorithm));
            },
        },
        None => {
            return Err(DecodeError::TypeMismatch(Field::Algorithm));
        },
    };
    let corner = match json_get(&v, "corner") {
        Some(cv) => match json_as_string(cv) {
            Some(t) => match Corner::from_token(t.as_str()) {
                Some(c) => Some(c),
                None => {
                    return Err(DecodeError::UnrecognizedToken(Field::Corner));
                },
            },
            None => {
                return Err(DecodeError::TypeMismatch(Field::Corner));
            },
        },
        None => None,
    };
    let direction = match json_get(&v, "direction") {
        Some(dv) => match json_as_string(dv) {
            Some(t) => match Direction::from_token(t.as_str()) {
                Some(d) => Some(d),
                None => {
                    return Err(DecodeError::UnrecognizedToken(Field::Direction));
                },
            },
            None => {
                return Err(DecodeError::TypeMismatch(Field::Direction));
            },
        },
        None => None,
    };
    Ok(MazeRequest { dimensions: Dimensions { height, width }, algorithm, corner, direction })
}

/// The name a field is reported under in diagnostics.
pub open spec fn spec_field_label(f: Field) -> Seq<char> {
    match f {
        Field::Body => "body"@,
        Field::Dimensions => "dimensions"@,
        Field::Height => "height"@,
        Field::Width => "width"@,
        Field::Algorithm => "algorithm"@,
        Field::Corner => "corner"@,
        Field::Direction => "direction"@,
    }
}

/// The descriptive message of a decode failure: what went wrong, and on
/// which field.
pub open spec fn spec_decode_error_message(e: DecodeError) -> Seq<char> {
    match e {
        DecodeError::Syntax => "request body is not valid JSON"@,
        DecodeError::MissingField(f) => "missing required field: "@ + spec_field_label(f),
        DecodeError::TypeMismatch(f) => "wrong type for field: "@ + spec_field_label(f),
        DecodeError::UnrecognizedToken(f) => "unrecognized token for field: "@ + spec_field_label(
            f,
        ),
    }
}

impl Field {
    /// The field's name, for diagnostics.
    pub fn label(&self) -> (r: String)
        ensures
            r@ == spec_field_label(*self),
    {
        match self {
            Field::Body => String::from_str("body"),
            Field::Dimensions => String::from_str("dimensions"),
            Field::Height => String::from_str("height"),
            Field::Width => String::from_str("width"),
            Field::Algorithm => String::from_str("algorithm"),
            Field::Corner => String::from_str("corner"),
            Field::Direction => String::from_str("direction"),
        }
    }
}

impl DecodeError {
    /// A descriptive message of this failure, for diagnostics.
    pub fn message(&self) -> (r: String)
        ensures
            r@ == spec_decode_error_message(*self),
    {
        match self {
            DecodeError::Syntax => String::from_str("request body is not valid JSON"),
            DecodeError::MissingField(f) => String::from_str("missing required field: ").concat(
                f.label().as_str(),
            ),
            DecodeError::TypeMismatch(f) => String::from_str("wrong type for field: ").concat(
                f.label().as_str(),
            ),
            DecodeError::UnrecognizedToken(f) => String::from_str(
                "unrecognized token for field: ",
            ).concat(f.label().as_str()),
        }
    }
}

/// Both aliases of every enumerated value resolve to the same canonical
/// variant: short and long form are interchangeable.
pub proof fn lemma_alias_pairs_agree()
    ensures
        spec_algorithm_from_token("ab"@) == Some(Algorithm::AldousBroder),
        spec_algorithm_from_token("aldous-broder"@) == Some(Algorithm::AldousBroder),
        spec_algorithm_from_token("bt"@) == Some(Algorithm::BinaryTree),
        spec_algorithm_from_token("binary-tree"@) == Some(Algorithm::BinaryTree),
        spec_algorithm_from_token("sw"@) == Some(Algorithm::SideWinder),
        spec_algorithm_from_token("side-winder"@) == Some(Algorithm::SideWinder),
        spec_corner_from_token("nw"@) == Some(Corner::NorthWest),
        spec_corner_from_token("northwest"@) == Some(Corner::NorthWest),
        spec_corner_from_token("ne"@) == Some(Corner::NorthEast),
        spec_corner_from_token("northeast"@) == Some(Corner::NorthEast),
        spec_corner_from_token("se"@) == Some(Corner::SouthEast),
        spec_corner_from_token("southeast"@) == Some(Corner::SouthEast),
        spec_corner_from_token("sw"@) == Some(Corner::SouthWest),
        spec_corner_from_token("southwest"@) == Some(Corner::SouthWest),
        spec_direction_from_token("n"@) == Some(Direction::North),
        spec_direction_from_token("north"@) == Some(Direction::North),
        spec_direction_from_token("e"@) == Some(Direction::East),
        spec_direction_from_token("east"@) == Some(Direction::East),
        spec_direction_from_token("s"@) == Some(Direction::South),
        spec_direction_from_token("south"@) == Some(Direction::South),
        spec_direction_from_token("w"@) == Some(Direction::West),
        spec_direction_from_token("west"@) == Some(Direction::West),
        spec_output_type_from_token("bin"@) == Some(OutputType::Binary),
        spec_output_type_from_token("binary"@) == Some(OutputType::Binary),
        spec_output_type_from_token("ascii"@) == Some(OutputType::Ascii),
{
    reveal_strlit("ab");
    reveal_strlit("aldous-broder");
    reveal_strlit("bt");
    reveal_strlit("binary-tree");
    reveal_strlit("sw");
    reveal_strlit("side-winder");
    reveal_strlit("nw");
    reveal_strlit("northwest");
    reveal_strlit("ne");
    reveal_strlit("northeast");
    reveal_strlit("se");
    reveal_strlit("southeast");
    reveal_strlit("southwest");
    reveal_strlit("n");
    reveal_strlit("north");
    reveal_strlit("e");
    reveal_strlit("east");
    reveal_strlit("s");
    reveal_strlit("south");
    reveal_strlit("w");
    reveal_strlit("west");
    reveal_strlit("bin");
    reveal_strlit("binary");
    reveal_strlit("ascii");
    assert("ab"@.len() == 2 && "ab"@[0] == 'a');
    assert("aldous-broder"@.len() == 13 && "aldous-broder"@[0] == 'a');
    assert("bt"@.len() == 2 && "bt"@[0] == 'b');
    assert("binary-tree"@.len() == 11 && "binary-tree"@[0] == 'b');
    assert("sw"@.len() == 2 && "sw"@[0] == 's' && "sw"@[1] == 'w');
    assert("side-winder"@.len() == 11 && "side-winder"@[0] == 's');
    assert("nw"@.len() == 2 && "nw"@[0] == 'n' && "nw"@[1] == 'w');
    assert("northwest"@.len() == 9 && "northwest"@[0] == 'n' && "northwest"@[5] == 'w');
    assert("ne"@.len() == 2 && "ne"@[0] == 'n' && "ne"@[1] == 'e');
    assert("northeast"@.len() == 9 && "northeast"@[0] == 'n' && "northeast"@[5] == 'e');
    assert("se"@.len() == 2 && "se"@[0] == 's' && "se"@[1] == 'e');
    assert("southeast"@.len() == 9 && "southeast"@[0] == 's' && "southeast"@[5] == 'e');
    assert("southwest"@.len() == 9 && "southwest"@[0] == 's' && "southwest"@[5] == 'w');
    assert("n"@.len() == 1 && "n"@[0] == 'n');
    assert("north"@.len() == 5 && "north"@[0] == 'n');
    assert("e"@.len() == 1 && "e"@[0] == 'e');
    assert("east"@.len() == 4 && "east"@[0] == 'e');
    assert("s"@.len() == 1 && "s"@[0] == 's');
    assert("south"@.len() == 5 && "south"@[0] == 's');
    assert("w"@.len() == 1 && "w"@[0] == 'w');
    assert("west"@.len() == 4 && "west"@[0] == 'w');
    assert("bin"@.len() == 3);
    assert("binary"@.len() == 6);
    assert("ascii"@.len() == 5);
}

/// A body whose algorithm member holds an unrecognized token never decodes:
/// the request as a whole is rejected, no default is substituted.
pub proof fn lemma_unknown_algorithm_token_rejected(j: JsonData, t: Seq<char>)
    requires
        j matches JsonData::Object(m) && {
            let key = if m.contains_key("algorithm"@) {
                "algorithm"@
            } else {
                "alg"@
            };
            m.contains_key(key) && m[key] == JsonData::Text(t)
        },
        spec_algorithm_from_token(t) is None,
    ensures
        spec_decode_json(j) is Err,
{
}

/// A body whose `corner` member holds an unrecognized token never decodes.
pub proof fn lemma_unknown_corner_token_rejected(j: JsonData, t: Seq<char>)
    requires
        j matches JsonData::Object(m) && m.contains_key("corner"@) && m["corner"@]
            == JsonData::Text(t),
        spec_corner_from_token(t) is None,
    ensures
        spec_decode_json(j) is Err,
{
}

/// A body whose `direction` member holds an unrecognized token never
/// decodes.
pub proof fn lemma_unknown_direction_token_rejected(j: JsonData, t: Seq<char>)
    requires
        j matches JsonData::Object(m) && m.contains_key("direction"@) && m["direction"@]
            == JsonData::Text(t),
        spec_direction_from_token(t) is None,
    ensures
        spec_decode_json(j) is Err,
{
}

} // verus!
