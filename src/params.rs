//! Decoding of untyped tool arguments into typed parameters.

use vstd::prelude::*;

verus! {

/// Parameters of the point query.
pub struct PointParams {
    /// X coordinate on screen.
    pub x: i32,
    /// Y coordinate on screen.
    pub y: i32,
}

/// Parameters of the name query.
pub struct NameParams {
    /// Display name to search for.
    pub name: String,
}

/// One argument value, as far as decoding tells kinds apart.
pub enum ArgValue {
    /// An integer.
    Int(i64),
    /// A string.
    Str(String),
    /// Anything else (a fraction, a boolean, null, a list, an object).
    Other,
}

/// The parameter fields that decoding reads.
#[derive(Clone, Copy, Debug, PartialEq, Eq, Structural)]
pub enum Field {
    X,
    Y,
    Name,
}

/// Why arguments could not be decoded.
#[derive(Clone, Copy, Debug, PartialEq, Eq, Structural)]
pub enum ValidationError {
    /// A required field is absent.
    MissingField(Field),
    /// A field holds a value of the wrong kind, or out of range.
    InvalidValue(Field),
}

/// The key under which a field is passed.
pub open spec fn field_key(f: Field) -> Seq<char> {
    match f {
        Field::X => "x"@,
        Field::Y => "y"@,
        Field::Name => "name"@,
    }
}

/// The value of the first argument named `key`, if any.
pub open spec fn arg_value(args: Seq<(String, ArgValue)>, key: Seq<char>) -> Option<ArgValue>
    decreases args.len(),
{
    if args.len() == 0 {
        None
    } else if args[0].0@ == key {
        Some(args[0].1)
    } else {
        arg_value(args.drop_first(), key)
    }
}

/// A 32-bit coordinate read from field `f`.
pub open spec fn coordinate(args: Seq<(String, ArgValue)>, f: Field) -> Result<i32, ValidationError> {
    match arg_value(args, field_key(f)) {
        None => Err(ValidationError::MissingField(f)),
        Some(ArgValue::Int(v)) => if i32::MIN <= v <= i32::MAX {
            Ok(v as i32)
        } else {
            Err(ValidationError::InvalidValue(f))
        },
        Some(_) => Err(ValidationError::InvalidValue(f)),
    }
}

/// The point parameters that `args` hold, or the first field that is wrong.
pub open spec fn point_params(args: Seq<(String, ArgValue)>) -> Result<PointParams, ValidationError> {
    match coordinate(args, Field::X) {
        Err(e) => Err(e),
        Ok(x) => match coordinate(args, Field::Y) {
            Err(e) => Err(e),
            Ok(y) => Ok(PointParams { x, y }),
        },
    }
}

/// The error of decoding name parameters from `args`, if decoding fails.
pub open spec fn name_error(args: Seq<(String, ArgValue)>) -> Option<ValidationError> {
    match arg_value(args, field_key(Field::Name)) {
        None => Some(ValidationError::MissingField(Field::Name)),
        Some(ArgValue::Str(_)) => None,
        Some(_) => Some(ValidationError::InvalidValue(Field::Name)),
    }
}

fn field_key_of(f: Field) -> (k: String)
    ensures
        k@ == field_key(f),
{
    match f {
        Field::X => String::from_str("x"),
        Field::Y => String::from_str("y"),
        Field::Name => String::from_str("name"),
    }
}

/// Position of the first argument named after `f`, if any.
fn find_arg(args: &Vec<(String, ArgValue)>, f: Field) -> (r: Option<usize>)
    ensures
        match r {
            None => arg_value(args@, field_key(f)) is None,
            Some(i) => i < args@.len() && arg_value(args@, field_key(f)) == Some(args@[i as int].1),
        },
{
    let key = field_key_of(f);
    let mut i: usize = 0;
    assert(args@.skip(0) =~= args@);
    while i < args.len()
        invariant
            i <= args@.len(),
            key@ == field_key(f),
            arg_value(args@, key@) == arg_value(args@.skip(i as int), key@),
        decreases args@.len() - i,
    {
        assert(args@.skip(i as int).drop_first() =~= args@.skip(i + 1));
        if args[i].0 == key {
            return Some(i);
        }
        i = i + 1;
    }
    None
}

fn decode_coordinate(args: &Vec<(String, ArgValue)>, f: Field) -> (r: Result<i32, ValidationError>)
    ensures
        r == coordinate(args@, f),
{
    match find_arg(args, f) {
        None => Err(ValidationError::MissingField(f)),
        Some(i) => match &args[i].1 {
            ArgValue::Int(v) => if i32::MIN as i64 <= *v && *v <= i32::MAX as i64 {
                Ok(*v as i32)
            } else {
                Err(ValidationError::InvalidValue(f))
            },
            _ => Err(ValidationError::InvalidValue(f)),
        },
    }
}

/// Decodes the point parameters: `x` and `y`, both required 32-bit integers.
pub fn decode_point(args: &Vec<(String, ArgValue)>) -> (r: Result<PointParams, ValidationError>)
    ensures
        r == point_params(args@),
{
    let x = match decode_coordinate(args, Field::X) {
        Err(e) => return Err(e),
        Ok(x) => x,
    };
    let y = match decode_coordinate(args, Field::Y) {
        Err(e) => return Err(e),
        Ok(y) => y,
    };
    Ok(PointParams { x, y })
}

/// Decodes the name parameters: `name`, a required string.
pub fn decode_name(args: &Vec<(String, ArgValue)>) -> (r: Result<NameParams, ValidationError>)
    ensures
        match r {
            Ok(p) => (arg_value(args@, field_key(Field::Name)) matches Some(ArgValue::Str(n))
                && p.name@ == n@),
            Err(e) => name_error(args@) == Some(e),
        },
{
    match find_arg(args, Field::Name) {
        None => Err(ValidationError::MissingField(Field::Name)),
        Some(i) => match &args[i].1 {
            ArgValue::Str(n) => Ok(NameParams { name: n.clone() }),
            _ => Err(ValidationError::InvalidValue(Field::Name)),
        },
    }
}

} // verus!
