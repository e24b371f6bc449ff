//! The names that the language fixes: prelude types and constructors,
//! native core classes, and the spelling of manifest members.

use vstd::prelude::*;
use crate::chain::{Chain, copy_chain};
use crate::context::NativeRepr;
use crate::lists::{after_dot, concat, cons};
use crate::text::{Text, is_text, text};
use crate::model;

verus! {

/// Whether the prelude places one type name into unqualified scope.
pub fn is_prelude_type(name: &Text) -> (r: bool)
    ensures
        r == model::names::is_prelude_type(name),
{
    is_text(&*name, "Option")
    || is_text(&*name, "Result")
    || is_text(&*name, "Ordering")
    || is_text(&*name, "Unit")
    || is_text(&*name, "Tuple2")
    || is_text(&*name, "Tuple3")
    || is_text(&*name, "Tuple4")
    || is_text(&*name, "Tuple5")
    || is_text(&*name, "Tuple6")
    || is_text(&*name, "Tuple7")
    || is_text(&*name, "Tuple8")
    || is_text(&*name, "Tuple9")
    || is_text(&*name, "Tuple10")
    || is_text(&*name, "Tuple11")
    || is_text(&*name, "Tuple12")
    || is_text(&*name, "Tuple13")
    || is_text(&*name, "Tuple14")
    || is_text(&*name, "Tuple15")
    || is_text(&*name, "Tuple16")
    || is_text(&*name, "Range")
    || is_text(&*name, "StepEvent")
    || is_text(&*name, "DriveEvent")
    || is_text(&*name, "Proc")
    || is_text(&*name, "Recv")
    || is_text(&*name, "SendResult")
    || is_text(&*name, "ProcError")
    || is_text(&*name, "Choice")
    || is_text(&*name, "SnapshotError")
    || is_text(&*name, "RestoreError")
    || is_text(&*name, "BranchError")
    || is_text(&*name, "ByteReader")
    || is_text(&*name, "ByteWriter")
    || is_text(&*name, "HexError")
    || is_text(&*name, "StdStream")
    || is_text(&*name, "TtySize")
    || is_text(&*name, "TtyError")
    || is_text(&*name, "RawMode")
    || is_text(&*name, "Tty")
    || is_text(&*name, "SignalKind")
    || is_text(&*name, "SignalError")
    || is_text(&*name, "SignalStream")
    || is_text(&*name, "Signal")
    || is_text(&*name, "Artifact")
    || is_text(&*name, "VerifiedModule")
    || is_text(&*name, "FunctionCode")
    || is_text(&*name, "ClassCode")
    || is_text(&*name, "DefinitionIdentity")
    || is_text(&*name, "DefinitionSpec")
    || is_text(&*name, "DefinitionSource")
    || is_text(&*name, "SlotSpec")
    || is_text(&*name, "Instance")
    || is_text(&*name, "Slot")
    || is_text(&*name, "SlotChange")
    || is_text(&*name, "FunctionDef")
    || is_text(&*name, "ClassDef")
    || is_text(&*name, "FunctionBinding")
    || is_text(&*name, "ClassBinding")
    || is_text(&*name, "CodeError")
    || is_text(&*name, "GrammarVersion")
    || is_text(&*name, "SourceRange")
    || is_text(&*name, "CodeLocation")
    || is_text(&*name, "SyntaxTree")
    || is_text(&*name, "SyntaxElement")
    || is_text(&*name, "SyntaxNode")
    || is_text(&*name, "SyntaxToken")
    || is_text(&*name, "SyntaxTrivia")
    || is_text(&*name, "SyntaxBuilder")
    || is_text(&*name, "ParseStatus")
    || is_text(&*name, "SyntaxDiagnostic")
    || is_text(&*name, "SyntaxParse")
    || is_text(&*name, "LinkEnv")
    || is_text(&*name, "CompileEnv")
    || is_text(&*name, "CompileOptions")
    || is_text(&*name, "CompileErrors")
    || is_text(&*name, "DynValue")
    || is_text(&*name, "FsError")
    || is_text(&*name, "IoError")
    || is_text(&*name, "EnvError")
    || is_text(&*name, "EntropyError")
    || is_text(&*name, "OpenOptions")
    || is_text(&*name, "SeekFrom")
    || is_text(&*name, "FileKind")
    || is_text(&*name, "FileInfo")
    || is_text(&*name, "DirEntry")
    || is_text(&*name, "RenameMode")
    || is_text(&*name, "PipeError")
    || is_text(&*name, "PipeEnd")
    || is_text(&*name, "PipeReader")
    || is_text(&*name, "PipeWriter")
    || is_text(&*name, "ChildInput")
    || is_text(&*name, "ChildOutput")
    || is_text(&*name, "ChildEnv")
    || is_text(&*name, "ExecSpec")
    || is_text(&*name, "ChildStatus")
    || is_text(&*name, "ExecError")
    || is_text(&*name, "Child")
    || is_text(&*name, "Pipe")
    || is_text(&*name, "Exec")
    || is_text(&*name, "IpAddress")
    || is_text(&*name, "SocketAddress")
    || is_text(&*name, "NetError")
    || is_text(&*name, "TcpRead")
    || is_text(&*name, "Shutdown")
    || is_text(&*name, "TcpResource")
    || is_text(&*name, "TcpStream")
    || is_text(&*name, "TcpListener")
    || is_text(&*name, "Tcp")
    || is_text(&*name, "TlsError")
    || is_text(&*name, "TlsStream")
    || is_text(&*name, "UdpDatagram")
    || is_text(&*name, "UdpSocket")
    || is_text(&*name, "Udp")
    || is_text(&*name, "Text")
    || is_text(&*name, "String")
    || is_text(&*name, "Substring")
    || is_text(&*name, "Char")
    || is_text(&*name, "Utf8Error")
    || is_text(&*name, "IndexError")
    || is_text(&*name, "ParseIntError")
    || is_text(&*name, "ParseFloatError")
    || is_text(&*name, "FloatToIntError")
    || is_text(&*name, "Bytes")
    || is_text(&*name, "StringBuilder")
    || is_text(&*name, "ByteBuffer")
    || is_text(&*name, "List")
    || is_text(&*name, "Map")
    || is_text(&*name, "Set")
    || is_text(&*name, "ListIterator")
    || is_text(&*name, "MapIterator")
    || is_text(&*name, "SetIterator")
    || is_text(&*name, "TextIterator")
    || is_text(&*name, "RangeIterator")
    || is_text(&*name, "ListSlice")
    || is_text(&*name, "ListSliceIterator")
    || is_text(&*name, "MapKeys")
    || is_text(&*name, "MapValues")
    || is_text(&*name, "MapEntries")
    || is_text(&*name, "MapKeysIterator")
    || is_text(&*name, "MapValuesIterator")
    || is_text(&*name, "MapEntriesIterator")
}

/// Whether the prelude places one constructor name into unqualified scope.
pub fn is_prelude_ctor(name: &Text) -> (r: bool)
    ensures
        r == model::names::is_prelude_ctor(name),
{
    is_text(&*name, "Some")
    || is_text(&*name, "None")
    || is_text(&*name, "Ok")
    || is_text(&*name, "Err")
    || is_text(&*name, "ReadOnly")
    || is_text(&*name, "WriteOnly")
    || is_text(&*name, "ReadWrite")
    || is_text(&*name, "Create")
    || is_text(&*name, "CreateTruncate")
    || is_text(&*name, "CreateNew")
    || is_text(&*name, "Append")
    || is_text(&*name, "Start")
    || is_text(&*name, "Current")
    || is_text(&*name, "End")
    || is_text(&*name, "InteractionExpression")
    || is_text(&*name, "InteractionDefinitions")
    || is_text(&*name, "InteractionIncomplete")
    || is_text(&*name, "InteractionInvalid")
}

/// The value of a decimal digit.
pub fn digit(c: char) -> (r: Option<u32>)
    ensures
        r == model::names::digit(c),
{
    if c == '0' {
        return Some(0u32);
    }
    if c == '1' {
        return Some(1u32);
    }
    if c == '2' {
        return Some(2u32);
    }
    if c == '3' {
        return Some(3u32);
    }
    if c == '4' {
        return Some(4u32);
    }
    if c == '5' {
        return Some(5u32);
    }
    if c == '6' {
        return Some(6u32);
    }
    if c == '7' {
        return Some(7u32);
    }
    if c == '8' {
        return Some(8u32);
    }
    if c == '9' {
        return Some(9u32);
    }
    None
}

/// The number that decimal digits spell after a first part, up to a
/// hundred; a larger number reads as a hundred.
pub fn small_number(digits: &Text, first: u32) -> (r: Option<u32>)
    ensures
        r == model::names::small_number(digits, first),
    decreases digits,
{
    match digits {
        Chain::Nil => Some(first),
        Chain::Cons(head, tail) => {
            let d = match digit(**head) {
                Some(found) => found,
                None => {
                    return None;
                },
            };
            if first >= 10 {
                match small_number(tail, 100u32) {
                    Some(_) => Some(100u32),
                    None => None,
                }
            } else {
                small_number(tail, (first * 10 + d) as u32)
            }
        },
    }
}

/// The number that a text spells: digits with an optional plus sign.
pub fn spelled_number(source: &Text) -> (r: Option<u32>)
    ensures
        r == model::names::spelled_number(source),
{
    match source {
        Chain::Nil => None,
        Chain::Cons(head, tail) => {
            if **head == '+' {
                match &**tail {
                    Chain::Nil => None,
                    Chain::Cons(_, _) => small_number(tail, 0u32),
                }
            } else {
                small_number(source, 0u32)
            }
        },
    }
}

/// The rest of a text behind a first part.
pub fn behind<'a>(source: &'a Text, first: &Text) -> (r: Option<&'a Text>)
    ensures
        r == model::names::behind(source, first),
    decreases first,
{
    match (source, first) {
        (_, Chain::Nil) => Some(source),
        (Chain::Cons(x, xs), Chain::Cons(y, ys)) => {
            if **x == **y {
                behind(xs, ys)
            } else {
                None
            }
        },
        _ => None,
    }
}

/// The arity of a tuple class name, such as `Tuple2`. The core image
/// declares the arities from 2 to 16.
pub fn tuple_core_arity(name: &Text) -> (r: Option<usize>)
    ensures
        r == model::names::tuple_core_arity(name),
{
    let prefix = text("Tuple");
    let rest = match behind(name, &prefix) {
        Some(found) => found,
        None => {
            return None;
        },
    };
    let arity = match spelled_number(rest) {
        Some(found) => found,
        None => {
            return None;
        },
    };
    if 2 <= arity && arity <= 16 {
        Some(arity as usize)
    } else {
        None
    }
}

/// The machine representation of a core class, by its name.
pub fn core_native_repr(name: &Text) -> (r: Option<NativeRepr>)
    ensures
        r == model::names::core_native_repr(name),
{
    if is_text(&*name, "Unit") {
        return Some(NativeRepr::Unit);
    }
    if is_text(&*name, "Int") {
        return Some(NativeRepr::Int);
    }
    if is_text(&*name, "Float") {
        return Some(NativeRepr::Float);
    }
    if is_text(&*name, "Bool") {
        return Some(NativeRepr::Bool);
    }
    if is_text(&*name, "Text") {
        return Some(NativeRepr::Text);
    }
    if is_text(&*name, "String") {
        return Some(NativeRepr::String);
    }
    if is_text(&*name, "Substring") {
        return Some(NativeRepr::Substring);
    }
    if is_text(&*name, "Char") {
        return Some(NativeRepr::Char);
    }
    if is_text(&*name, "Bytes") {
        return Some(NativeRepr::Bytes);
    }
    if is_text(&*name, "StringBuilder") {
        return Some(NativeRepr::StringBuilder);
    }
    if is_text(&*name, "ByteBuffer") {
        return Some(NativeRepr::ByteBuffer);
    }
    if is_text(&*name, "List") {
        return Some(NativeRepr::List);
    }
    if is_text(&*name, "Map") {
        return Some(NativeRepr::MapRepr);
    }
    if is_text(&*name, "FileHandle") {
        return Some(NativeRepr::FileHandle);
    }
    if is_text(&*name, "TcpResource") {
        return Some(NativeRepr::TcpResource);
    }
    if is_text(&*name, "TcpStream") {
        return Some(NativeRepr::TcpStream);
    }
    if is_text(&*name, "TcpListener") {
        return Some(NativeRepr::TcpListener);
    }
    if is_text(&*name, "TlsStream") {
        return Some(NativeRepr::TlsStream);
    }
    if is_text(&*name, "UdpSocket") {
        return Some(NativeRepr::UdpSocket);
    }
    if is_text(&*name, "Artifact") {
        return Some(NativeRepr::Artifact);
    }
    if is_text(&*name, "VerifiedModule") {
        return Some(NativeRepr::VerifiedModule);
    }
    if is_text(&*name, "FunctionCode") {
        return Some(NativeRepr::FunctionCode);
    }
    if is_text(&*name, "ClassCode") {
        return Some(NativeRepr::ClassCode);
    }
    if is_text(&*name, "SlotSpec") {
        return Some(NativeRepr::SlotSpec);
    }
    if is_text(&*name, "Instance") {
        return Some(NativeRepr::CodeInstance);
    }
    if is_text(&*name, "Slot") {
        return Some(NativeRepr::Slot);
    }
    if is_text(&*name, "FunctionDef") {
        return Some(NativeRepr::FunctionDef);
    }
    if is_text(&*name, "ClassDef") {
        return Some(NativeRepr::ClassDef);
    }
    if is_text(&*name, "FunctionBinding") {
        return Some(NativeRepr::FunctionBinding);
    }
    if is_text(&*name, "ClassBinding") {
        return Some(NativeRepr::ClassBinding);
    }
    if is_text(&*name, "DynValue") {
        return Some(NativeRepr::DynValue);
    }
    match tuple_core_arity(name) {
        Some(arity) => Some(NativeRepr::Tuple(arity as u8)),
        None => None,
    }
}

/// Whether a character is an ASCII upper-case letter.
pub fn is_upper(c: char) -> (r: bool)
    ensures
        r == model::names::is_upper(c),
{
    'A' <= c && c <= 'Z'
}

/// The upper-case form of an ASCII lower-case letter; any other
/// character is kept.
pub fn upper(c: char) -> (r: char)
    ensures
        r == model::names::upper(c),
{
    if 'a' <= c && c <= 'z' {
        ((c as u8) - 32) as u8 as char
    } else {
        c
    }
}

/// The lower-case form of an ASCII upper-case letter; any other
/// character is kept.
pub fn lower(c: char) -> (r: char)
    ensures
        r == model::names::lower(c),
{
    if 'A' <= c && c <= 'Z' {
        ((c as u8) + 32) as u8 as char
    } else {
        c
    }
}

/// The rest of a name in camel case.
pub fn camel_rest(surface: &Text, start: bool) -> (r: Text)
    ensures
        r == model::names::camel_rest(surface, start),
    decreases surface,
{
    match surface {
        Chain::Nil => Chain::Nil,
        Chain::Cons(head, tail) => {
            if **head == '_' {
                camel_rest(tail, true)
            } else if start {
                cons(upper(**head), camel_rest(tail, false))
            } else {
                cons(**head, camel_rest(tail, false))
            }
        },
    }
}

/// The manifest member name of one surface member: `read_line` becomes
/// `ReadLine`.
pub fn camel_member(surface: &Text) -> (r: Text)
    ensures
        r == model::names::camel_member(surface),
{
    camel_rest(surface, true)
}

/// The rest of a name in snake case.
pub fn snake_rest(member: &Text, first: bool) -> (r: Text)
    ensures
        r == model::names::snake_rest(member, first),
    decreases member,
{
    match member {
        Chain::Nil => Chain::Nil,
        Chain::Cons(head, tail) => {
            if is_upper(**head) {
                if first {
                    cons(lower(**head), snake_rest(tail, false))
                } else {
                    cons('_', cons(lower(**head), snake_rest(tail, false)))
                }
            } else {
                cons(**head, snake_rest(tail, false))
            }
        },
    }
}

/// The surface name of one manifest member: `ReadLine` becomes
/// `read_line`.
pub fn snake_member(member: &Text) -> (r: Text)
    ensures
        r == model::names::snake_member(member),
{
    snake_rest(member, true)
}

/// Whether a text starts with an ASCII upper-case letter.
pub fn starts_upper(name: &Text) -> (r: bool)
    ensures
        r == model::names::starts_upper(name),
{
    match name {
        Chain::Nil => false,
        Chain::Cons(head, _) => is_upper(**head),
    }
}

/// Whether a text holds a dot.
pub fn has_dot(name: &Text) -> (r: bool)
    ensures
        r == model::names::has_dot(name),
{
    match after_dot(name) {
        Some(_) => true,
        None => false,
    }
}

/// Two texts with a dot between them.
pub fn dotted(first: &Text, second: &Text) -> (r: Text)
    ensures
        r == model::names::dotted(first, second),
{
    concat(copy_chain(&*first), cons('.', copy_chain(&*second)))
}

/// The hidden binding of one interface default.
pub fn interface_default_binding(interface: &Text, method: &Text) -> (r: Text)
    ensures
        r == model::names::interface_default_binding(interface, method),
{
    let prefix = text("$default.");
    concat(prefix, dotted(interface, method))
}

/// The name of the tuple class of one arity, where the core image
/// declares it.
pub fn tuple_name(arity: u32) -> (r: Option<Text>)
    ensures
        r == model::names::tuple_name(arity),
{
    if arity == 2 {
        return Some(text("Tuple2"));
    }
    if arity == 3 {
        return Some(text("Tuple3"));
    }
    if arity == 4 {
        return Some(text("Tuple4"));
    }
    if arity == 5 {
        return Some(text("Tuple5"));
    }
    if arity == 6 {
        return Some(text("Tuple6"));
    }
    if arity == 7 {
        return Some(text("Tuple7"));
    }
    if arity == 8 {
        return Some(text("Tuple8"));
    }
    if arity == 9 {
        return Some(text("Tuple9"));
    }
    if arity == 10 {
        return Some(text("Tuple10"));
    }
    if arity == 11 {
        return Some(text("Tuple11"));
    }
    if arity == 12 {
        return Some(text("Tuple12"));
    }
    if arity == 13 {
        return Some(text("Tuple13"));
    }
    if arity == 14 {
        return Some(text("Tuple14"));
    }
    if arity == 15 {
        return Some(text("Tuple15"));
    }
    if arity == 16 {
        return Some(text("Tuple16"));
    }
    None
}

} // verus!
