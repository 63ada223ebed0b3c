//! The decisions that the command macros make about the functions they
//! wrap, on plain descriptions of those functions: the name of the runtime
//! type parameter, the names of the arguments, and the names of the items
//! the macros generate.

use vstd::prelude::*;
use crate::int_parse::decimal_bytes;

verus! {

/// The decimal text of `n` as characters.
pub open spec fn decimal_chars(n: nat) -> Seq<char> {
    decimal_bytes(n).map_values(|b: u8| b as char)
}

/// The one-character text of the decimal digit `d`.
fn digit_text(d: usize) -> (r: &'static str)
    requires
        d < 10,
    ensures
        r@ == seq![((0x30 + d) as u8) as char],
{
    proof {
            reveal_strlit("0");
            reveal_strlit("1");
            reveal_strlit("2");
            reveal_strlit("3");
            reveal_strlit("4");
            reveal_strlit("5");
            reveal_strlit("6");
            reveal_strlit("7");
            reveal_strlit("8");
            reveal_strlit("9");
    }
    match d {
        0 => "0",
        1 => "1",
        2 => "2",
        3 => "3",
        4 => "4",
        5 => "5",
        6 => "6",
        7 => "7",
        8 => "8",
        _ => "9",
    }
}

/// Appends the decimal digits of `n` to `s`, most significant first.
fn append_decimal(s: &mut String, n: usize)
    ensures
        final(s)@ == old(s)@ + decimal_chars(n as nat),
    decreases n,
{
    if n >= 10 {
        append_decimal(s, n / 10);
    }
    let ghost before = s@;
    s.append(digit_text(n % 10));
    proof {
        let d = decimal_bytes(n as nat);
        if n >= 10 {
            assert(d == decimal_bytes((n / 10) as nat).push((0x30 + n % 10) as u8));
            assert(decimal_chars(n as nat) =~= decimal_chars((n / 10) as nat) + seq![
                ((0x30 + n % 10) as u8) as char,
            ]);
        } else {
            assert(decimal_chars(n as nat) =~= seq![((0x30 + n % 10) as u8) as char]);
        }
    }
}

/// The suffix that keeps generated names apart from the user's.
pub fn ident_suffix() -> (r: &'static str)
    ensures
        r@ == "0cc84921_b5dc_4044_86a1_58ee53f2643a"@,
{
    "0cc84921_b5dc_4044_86a1_58ee53f2643a"
}

/// `prefix` followed by [`ident_suffix`].
pub fn suffixed(prefix: &str) -> (r: String)
    ensures
        r@ == prefix@ + "0cc84921_b5dc_4044_86a1_58ee53f2643a"@,
{
    let mut s = String::from_str(prefix);
    s.append(ident_suffix());
    s
}

/// Why a function cannot be made a command.
#[derive(Debug, Clone, Copy, PartialEq, Eq, Structural)]
pub enum CodegenError {
    /// The function takes `self`.
    NotStandalone,
    /// A parameter is bound by a pattern other than a plain name.
    NotIdentPattern,
    /// The first generic parameter is a lifetime or a constant.
    NotTypeParameter,
}

impl CodegenError {
    /// The compile error that the macro reports.
    pub fn message(&self) -> (r: &'static str)
        ensures
            r@ == (match self {
                CodegenError::NotStandalone => "command must be standalone function."@,
                CodegenError::NotIdentPattern => "command parameter pattern must be identifier pattern."@,
                CodegenError::NotTypeParameter => "bin ipc command only have type parameter."@,
            }),
    {
        match self {
            CodegenError::NotStandalone => "command must be standalone function.",
            CodegenError::NotIdentPattern => "command parameter pattern must be identifier pattern.",
            CodegenError::NotTypeParameter => "bin ipc command only have type parameter.",
        }
    }
}

/// A generic parameter of the wrapped function.
pub enum GenericParamKind {
    /// A type parameter with its name.
    Type(String),
    Lifetime,
    Const,
}

/// The name of the runtime type parameter: the function's first generic
/// parameter when that is a type, a generated name when there is none.
pub fn runtime_param_name(first: Option<GenericParamKind>) -> (r: Result<String, CodegenError>)
    ensures
        match first {
            Some(GenericParamKind::Type(name)) => r == Ok::<String, CodegenError>(name),
            None => r matches Ok(s) && s@ == "__R_"@ + "0cc84921_b5dc_4044_86a1_58ee53f2643a"@,
            Some(_) => r == Err::<String, CodegenError>(CodegenError::NotTypeParameter),
        },
{
    match first {
        Some(GenericParamKind::Type(name)) => Ok(name),
        None => Ok(suffixed("__R_")),
        Some(_) => Err(CodegenError::NotTypeParameter),
    }
}

/// A parameter of the wrapped function.
pub enum FnArgKind {
    /// `self` in any form.
    Receiver,
    /// A parameter bound to a plain name.
    Ident(String),
    /// A parameter bound by any other pattern.
    OtherPattern,
}

/// The error that a parameter gives, if any.
pub open spec fn arg_error(a: FnArgKind) -> Option<CodegenError> {
    match a {
        FnArgKind::Receiver => Some(CodegenError::NotStandalone),
        FnArgKind::Ident(_) => None,
        FnArgKind::OtherPattern => Some(CodegenError::NotIdentPattern),
    }
}

/// The name of a plain parameter.
pub open spec fn arg_name(a: FnArgKind) -> Seq<char> {
    match a {
        FnArgKind::Ident(n) => n@,
        _ => Seq::empty(),
    }
}

/// The names of the parameters, in order; the first parameter that is not
/// a plain name decides the error.
pub fn command_args(args: &Vec<FnArgKind>) -> (r: Result<Vec<String>, CodegenError>)
    ensures
        match r {
            Ok(names) => {
                &&& forall|i: int| 0 <= i < args@.len() ==> arg_error(#[trigger] args@[i]) is None
                &&& names@.len() == args@.len()
                &&& forall|i: int| 0 <= i < args@.len() ==> #[trigger] names@[i]@ == arg_name(args@[i])
            },
            Err(e) => exists|k: int|
                {
                    &&& 0 <= k < args@.len()
                    &&& arg_error(#[trigger] args@[k]) == Some(e)
                    &&& forall|i: int| 0 <= i < k ==> arg_error(#[trigger] args@[i]) is None
                },
        },
{
    let mut names: Vec<String> = Vec::new();
    let n = args.len();
    let mut i: usize = 0;
    while i < n
        invariant
            n == args@.len(),
            i <= n,
            names@.len() == i,
            forall|j: int| 0 <= j < i ==> arg_error(#[trigger] args@[j]) is None,
            forall|j: int| 0 <= j < i ==> #[trigger] names@[j]@ == arg_name(args@[j]),
        decreases n - i,
    {
        match &args[i] {
            FnArgKind::Receiver => {
                assert(arg_error(args@[i as int]) == Some(CodegenError::NotStandalone));
                return Err(CodegenError::NotStandalone);
            },
            FnArgKind::OtherPattern => {
                assert(arg_error(args@[i as int]) == Some(CodegenError::NotIdentPattern));
                return Err(CodegenError::NotIdentPattern);
            },
            FnArgKind::Ident(name) => {
                names.push(name.clone());
            },
        }
        i = i + 1;
    }
    Ok(names)
}

/// The name of the field that holds argument `i`: `arg{i}`.
pub fn arg_field_name(i: usize) -> (r: String)
    ensures
        r@ == "arg"@ + decimal_chars(i as nat),
{
    let mut s = String::from_str("arg");
    append_decimal(&mut s, i);
    s
}

/// The names of the fields for `n` arguments, `arg0` to `arg{n-1}`.
pub fn arg_field_names(n: usize) -> (r: Vec<String>)
    ensures
        r@.len() == n,
        forall|i: int| 0 <= i < n ==> #[trigger] r@[i]@ == "arg"@ + decimal_chars(i as nat),
{
    let mut fields: Vec<String> = Vec::new();
    let mut i: usize = 0;
    while i < n
        invariant
            i <= n,
            fields@.len() == i,
            forall|j: int| 0 <= j < i ==> #[trigger] fields@[j]@ == "arg"@ + decimal_chars(j as nat),
        decreases n - i,
    {
        fields.push(arg_field_name(i));
        i = i + 1;
    }
    fields
}

/// What the argument decoder says it expects.
pub fn visitor_expecting(command_name: &str) -> (r: String)
    ensures
        r@ == "arguments of command `"@ + command_name@ + "`"@,
{
    let mut s = String::from_str("arguments of command `");
    s.append(command_name);
    s.append("`");
    s
}

} // verus!
