//! The names that the language fixes: prelude types and constructors,
//! native core classes, and the spelling of manifest members.
//!
//! The functions here state what the functions of the same name compute.

use vstd::prelude::*;
use crate::chain::{Chain, chain_of};
use crate::context::NativeRepr;
use crate::model::lists::{after_dot, concat, cons};
use crate::text::Text;

verus! {

/// Whether the prelude places one type name into unqualified scope.
pub open spec fn is_prelude_type(name: &Text) -> bool
{
    ((*name)@ == "Option"@)
    || ((*name)@ == "Result"@)
    || ((*name)@ == "Ordering"@)
    || ((*name)@ == "Unit"@)
    || ((*name)@ == "Tuple2"@)
    || ((*name)@ == "Tuple3"@)
    || ((*name)@ == "Tuple4"@)
    || ((*name)@ == "Tuple5"@)
    || ((*name)@ == "Tuple6"@)
    || ((*name)@ == "Tuple7"@)
    || ((*name)@ == "Tuple8"@)
    || ((*name)@ == "Tuple9"@)
    || ((*name)@ == "Tuple10"@)
    || ((*name)@ == "Tuple11"@)
    || ((*name)@ == "Tuple12"@)
    || ((*name)@ == "Tuple13"@)
    || ((*name)@ == "Tuple14"@)
    || ((*name)@ == "Tuple15"@)
    || ((*name)@ == "Tuple16"@)
    || ((*name)@ == "Range"@)
    || ((*name)@ == "StepEvent"@)
    || ((*name)@ == "DriveEvent"@)
    || ((*name)@ == "Proc"@)
    || ((*name)@ == "Recv"@)
    || ((*name)@ == "SendResult"@)
    || ((*name)@ == "ProcError"@)
    || ((*name)@ == "Choice"@)
    || ((*name)@ == "SnapshotError"@)
    || ((*name)@ == "RestoreError"@)
    || ((*name)@ == "BranchError"@)
    || ((*name)@ == "ByteReader"@)
    || ((*name)@ == "ByteWriter"@)
    || ((*name)@ == "HexError"@)
    || ((*name)@ == "StdStream"@)
    || ((*name)@ == "TtySize"@)
    || ((*name)@ == "TtyError"@)
    || ((*name)@ == "RawMode"@)
    || ((*name)@ == "Tty"@)
    || ((*name)@ == "SignalKind"@)
    || ((*name)@ == "SignalError"@)
    || ((*name)@ == "SignalStream"@)
    || ((*name)@ == "Signal"@)
    || ((*name)@ == "Artifact"@)
    || ((*name)@ == "VerifiedModule"@)
    || ((*name)@ == "FunctionCode"@)
    || ((*name)@ == "ClassCode"@)
    || ((*name)@ == "DefinitionIdentity"@)
    || ((*name)@ == "DefinitionSpec"@)
    || ((*name)@ == "DefinitionSource"@)
    || ((*name)@ == "SlotSpec"@)
    || ((*name)@ == "Instance"@)
    || ((*name)@ == "Slot"@)
    || ((*name)@ == "SlotChange"@)
    || ((*name)@ == "FunctionDef"@)
    || ((*name)@ == "ClassDef"@)
    || ((*name)@ == "FunctionBinding"@)
    || ((*name)@ == "ClassBinding"@)
    || ((*name)@ == "CodeError"@)
    || ((*name)@ == "GrammarVersion"@)
    || ((*name)@ == "SourceRange"@)
    || ((*name)@ == "CodeLocation"@)
    || ((*name)@ == "SyntaxTree"@)
    || ((*name)@ == "SyntaxElement"@)
    || ((*name)@ == "SyntaxNode"@)
    || ((*name)@ == "SyntaxToken"@)
    || ((*name)@ == "SyntaxTrivia"@)
    || ((*name)@ == "SyntaxBuilder"@)
    || ((*name)@ == "ParseStatus"@)
    || ((*name)@ == "SyntaxDiagnostic"@)
    || ((*name)@ == "SyntaxParse"@)
    || ((*name)@ == "LinkEnv"@)
    || ((*name)@ == "CompileEnv"@)
    || ((*name)@ == "CompileOptions"@)
    || ((*name)@ == "CompileErrors"@)
    || ((*name)@ == "DynValue"@)
    || ((*name)@ == "FsError"@)
    || ((*name)@ == "IoError"@)
    || ((*name)@ == "EnvError"@)
    || ((*name)@ == "EntropyError"@)
    || ((*name)@ == "OpenOptions"@)
    || ((*name)@ == "SeekFrom"@)
    || ((*name)@ == "FileKind"@)
    || ((*name)@ == "FileInfo"@)
    || ((*name)@ == "DirEntry"@)
    || ((*name)@ == "RenameMode"@)
    || ((*name)@ == "PipeError"@)
    || ((*name)@ == "PipeEnd"@)
    || ((*name)@ == "PipeReader"@)
    || ((*name)@ == "PipeWriter"@)
    || ((*name)@ == "ChildInput"@)
    || ((*name)@ == "ChildOutput"@)
    || ((*name)@ == "ChildEnv"@)
    || ((*name)@ == "ExecSpec"@)
    || ((*name)@ == "ChildStatus"@)
    || ((*name)@ == "ExecError"@)
    || ((*name)@ == "Child"@)
    || ((*name)@ == "Pipe"@)
    || ((*name)@ == "Exec"@)
    || ((*name)@ == "IpAddress"@)
    || ((*name)@ == "SocketAddress"@)
    || ((*name)@ == "NetError"@)
    || ((*name)@ == "TcpRead"@)
    || ((*name)@ == "Shutdown"@)
    || ((*name)@ == "TcpResource"@)
    || ((*name)@ == "TcpStream"@)
    || ((*name)@ == "TcpListener"@)
    || ((*name)@ == "Tcp"@)
    || ((*name)@ == "TlsError"@)
    || ((*name)@ == "TlsStream"@)
    || ((*name)@ == "UdpDatagram"@)
    || ((*name)@ == "UdpSocket"@)
    || ((*name)@ == "Udp"@)
    || ((*name)@ == "Text"@)
    || ((*name)@ == "String"@)
    || ((*name)@ == "Substring"@)
    || ((*name)@ == "Char"@)
    || ((*name)@ == "Utf8Error"@)
    || ((*name)@ == "IndexError"@)
    || ((*name)@ == "ParseIntError"@)
    || ((*name)@ == "ParseFloatError"@)
    || ((*name)@ == "FloatToIntError"@)
    || ((*name)@ == "Bytes"@)
    || ((*name)@ == "StringBuilder"@)
    || ((*name)@ == "ByteBuffer"@)
    || ((*name)@ == "List"@)
    || ((*name)@ == "Map"@)
    || ((*name)@ == "Set"@)
    || ((*name)@ == "ListIterator"@)
    || ((*name)@ == "MapIterator"@)
    || ((*name)@ == "SetIterator"@)
    || ((*name)@ == "TextIterator"@)
    || ((*name)@ == "RangeIterator"@)
    || ((*name)@ == "ListSlice"@)
    || ((*name)@ == "ListSliceIterator"@)
    || ((*name)@ == "MapKeys"@)
    || ((*name)@ == "MapValues"@)
    || ((*name)@ == "MapEntries"@)
    || ((*name)@ == "MapKeysIterator"@)
    || ((*name)@ == "MapValuesIterator"@)
    || ((*name)@ == "MapEntriesIterator"@)
}

/// Whether the prelude places one constructor name into unqualified scope.
pub open spec fn is_prelude_ctor(name: &Text) -> bool
{
    ((*name)@ == "Some"@)
    || ((*name)@ == "None"@)
    || ((*name)@ == "Ok"@)
    || ((*name)@ == "Err"@)
    || ((*name)@ == "ReadOnly"@)
    || ((*name)@ == "WriteOnly"@)
    || ((*name)@ == "ReadWrite"@)
    || ((*name)@ == "Create"@)
    || ((*name)@ == "CreateTruncate"@)
    || ((*name)@ == "CreateNew"@)
    || ((*name)@ == "Append"@)
    || ((*name)@ == "Start"@)
    || ((*name)@ == "Current"@)
    || ((*name)@ == "End"@)
    || ((*name)@ == "InteractionExpression"@)
    || ((*name)@ == "InteractionDefinitions"@)
    || ((*name)@ == "InteractionIncomplete"@)
    || ((*name)@ == "InteractionInvalid"@)
}

/// The value of a decimal digit.
pub open spec fn digit(c: char) -> Option<u32>
{
    if c == '0' {
        Some(0u32)
    } else if c == '1' {
        Some(1u32)
    } else if c == '2' {
        Some(2u32)
    } else if c == '3' {
        Some(3u32)
    } else if c == '4' {
        Some(4u32)
    } else if c == '5' {
        Some(5u32)
    } else if c == '6' {
        Some(6u32)
    } else if c == '7' {
        Some(7u32)
    } else if c == '8' {
        Some(8u32)
    } else if c == '9' {
        Some(9u32)
    } else {
        None
    }
}

/// The number that decimal digits spell after a first part, up to a
/// hundred; a larger number reads as a hundred.
pub open spec fn small_number(digits: &Text, first: u32) -> Option<u32>
    decreases digits,
{
    match digits {
        Chain::Nil => Some(first),
        Chain::Cons(head, tail) => {
            match digit(**head) {
                None => None,
                Some(d) => {
                    if first >= 10 {
                        match small_number(tail, 100u32) {
                            Some(_) => Some(100u32),
                            None => None,
                        }
                    } else {
                        small_number(tail, (first * 10 + d) as u32)
                    }
                },
            }
        },
    }
}

/// The number that a text spells: digits with an optional plus sign.
pub open spec fn spelled_number(source: &Text) -> Option<u32>
{
    match source {
        Chain::Nil => None,
        Chain::Cons(head, tail) => {
            if **head == '+' {
                match &**tail {
                    Chain::Nil => None,
                    Chain::Cons(_, _) => small_number(tail, 0u32),
                }
            } else {
                small_number(source, 0u32)
            }
        },
    }
}

/// The rest of a text behind a first part.
pub open spec fn behind<'a>(source: &'a Text, first: &Text) -> Option<&'a Text>
    decreases first,
{
    match (source, first) {
        (_, Chain::Nil) => Some(source),
        (Chain::Cons(x, xs), Chain::Cons(y, ys)) => {
            if **x == **y {
                behind(xs, ys)
            } else {
                None
            }
        },
        _ => None,
    }
}

/// The arity of a tuple class name, such as `Tuple2`. The core image
/// declares the arities from 2 to 16.
pub open spec fn tuple_core_arity(name: &Text) -> Option<usize>
{
    let prefix = chain_of("Tuple"@);
    match behind(name, &prefix) {
        None => None,
        Some(rest) => {
            match spelled_number(rest) {
                None => None,
                Some(arity) => {
                    if 2 <= arity && arity <= 16 {
                        Some(arity as usize)
                    } else {
                        None
                    }
                },
            }
        },
    }
}

/// The machine representation of a core class, by its name.
pub open spec fn core_native_repr(name: &Text) -> Option<NativeRepr>
{
    if ((*name)@ == "Unit"@) {
        Some(NativeRepr::Unit)
    } else if ((*name)@ == "Int"@) {
        Some(NativeRepr::Int)
    } else if ((*name)@ == "Float"@) {
        Some(NativeRepr::Float)
    } else if ((*name)@ == "Bool"@) {
        Some(NativeRepr::Bool)
    } else if ((*name)@ == "Text"@) {
        Some(NativeRepr::Text)
    } else if ((*name)@ == "String"@) {
        Some(NativeRepr::String)
    } else if ((*name)@ == "Substring"@) {
        Some(NativeRepr::Substring)
    } else if ((*name)@ == "Char"@) {
        Some(NativeRepr::Char)
    } else if ((*name)@ == "Bytes"@) {
        Some(NativeRepr::Bytes)
    } else if ((*name)@ == "StringBuilder"@) {
        Some(NativeRepr::StringBuilder)
    } else if ((*name)@ == "ByteBuffer"@) {
        Some(NativeRepr::ByteBuffer)
    } else if ((*name)@ == "List"@) {
        Some(NativeRepr::List)
    } else if ((*name)@ == "Map"@) {
        Some(NativeRepr::MapRepr)
    } else if ((*name)@ == "FileHandle"@) {
        Some(NativeRepr::FileHandle)
    } else if ((*name)@ == "TcpResource"@) {
        Some(NativeRepr::TcpResource)
    } else if ((*name)@ == "TcpStream"@) {
        Some(NativeRepr::TcpStream)
    } else if ((*name)@ == "TcpListener"@) {
        Some(NativeRepr::TcpListener)
    } else if ((*name)@ == "TlsStream"@) {
        Some(NativeRepr::TlsStream)
    } else if ((*name)@ == "UdpSocket"@) {
        Some(NativeRepr::UdpSocket)
    } else if ((*name)@ == "Artifact"@) {
        Some(NativeRepr::Artifact)
    } else if ((*name)@ == "VerifiedModule"@) {
        Some(NativeRepr::VerifiedModule)
    } else if ((*name)@ == "FunctionCode"@) {
        Some(NativeRepr::FunctionCode)
    } else if ((*name)@ == "ClassCode"@) {
        Some(NativeRepr::ClassCode)
    } else if ((*name)@ == "SlotSpec"@) {
        Some(NativeRepr::SlotSpec)
    } else if ((*name)@ == "Instance"@) {
        Some(NativeRepr::CodeInstance)
    } else if ((*name)@ == "Slot"@) {
        Some(NativeRepr::Slot)
    } else if ((*name)@ == "FunctionDef"@) {
        Some(NativeRepr::FunctionDef)
    } else if ((*name)@ == "ClassDef"@) {
        Some(NativeRepr::ClassDef)
    } else if ((*name)@ == "FunctionBinding"@) {
        Some(NativeRepr::FunctionBinding)
    } else if ((*name)@ == "ClassBinding"@) {
        Some(NativeRepr::ClassBinding)
    } else if ((*name)@ == "DynValue"@) {
        Some(NativeRepr::DynValue)
    } else {
        match tuple_core_arity(name) {
            Some(arity) => Some(NativeRepr::Tuple(arity as u8)),
            None => None,
        }
    }
}

/// Whether a character is an ASCII upper-case letter.
pub open spec fn is_upper(c: char) -> bool
{
    'A' <= c && c <= 'Z'
}

/// The upper-case form of an ASCII lower-case letter; any other
/// character is kept.
pub open spec fn upper(c: char) -> char
{
    if 'a' <= c && c <= 'z' {
        ((c as u8) - 32) as u8 as char
    } else {
        c
    }
}

/// The lower-case form of an ASCII upper-case letter; any other
/// character is kept.
pub open spec fn lower(c: char) -> char
{
    if 'A' <= c && c <= 'Z' {
        ((c as u8) + 32) as u8 as char
    } else {
        c
    }
}

/// The rest of a name in camel case.
pub open spec fn camel_rest(surface: &Text, start: bool) -> Text
    decreases surface,
{
    match surface {
        Chain::Nil => Chain::Nil,
        Chain::Cons(head, tail) => {
            if **head == '_' {
                camel_rest(tail, true)
            } else if start {
                cons(upper(**head), camel_rest(tail, false))
            } else {
                cons(**head, camel_rest(tail, false))
            }
        },
    }
}

/// The manifest member name of one surface member: `read_line` becomes
/// `ReadLine`.
pub open spec fn camel_member(surface: &Text) -> Text
{
    camel_rest(surface, true)
}

/// The rest of a name in snake case.
pub open spec fn snake_rest(member: &Text, first: bool) -> Text
    decreases member,
{
    match member {
        Chain::Nil => Chain::Nil,
        Chain::Cons(head, tail) => {
            if is_upper(**head) {
                if first {
                    cons(lower(**head), snake_rest(tail, false))
                } else {
                    cons('_', cons(lower(**head), snake_rest(tail, false)))
                }
            } else {
                cons(**head, snake_rest(tail, false))
            }
        },
    }
}

/// The surface name of one manifest member: `ReadLine` becomes
/// `read_line`.
pub open spec fn snake_member(member: &Text) -> Text
{
    snake_rest(member, true)
}

/// Whether a text starts with an ASCII upper-case letter.
pub open spec fn starts_upper(name: &Text) -> bool
{
    match name {
        Chain::Nil => false,
        Chain::Cons(head, _) => is_upper(**head),
    }
}

/// Whether a text holds a dot.
pub open spec fn has_dot(name: &Text) -> bool
{
    match after_dot(name) {
        Some(_) => true,
        None => false,
    }
}

/// Two texts with a dot between them.
pub open spec fn dotted(first: &Text, second: &Text) -> Text
{
    concat(*first, cons('.', *second))
}

/// The hidden binding of one interface default.
pub open spec fn interface_default_binding(interface: &Text, method: &Text) -> Text
{
    let prefix = chain_of("$default."@);
    concat(prefix, dotted(interface, method))
}

/// The name of the tuple class of one arity, where the core image
/// declares it.
pub open spec fn tuple_name(arity: u32) -> Option<Text>
{
    if arity == 2 {
        Some(chain_of("Tuple2"@))
    } else if arity == 3 {
        Some(chain_of("Tuple3"@))
    } else if arity == 4 {
        Some(chain_of("Tuple4"@))
    } else if arity == 5 {
        Some(chain_of("Tuple5"@))
    } else if arity == 6 {
        Some(chain_of("Tuple6"@))
    } else if arity == 7 {
        Some(chain_of("Tuple7"@))
    } else if arity == 8 {
        Some(chain_of("Tuple8"@))
    } else if arity == 9 {
        Some(chain_of("Tuple9"@))
    } else if arity == 10 {
        Some(chain_of("Tuple10"@))
    } else if arity == 11 {
        Some(chain_of("Tuple11"@))
    } else if arity == 12 {
        Some(chain_of("Tuple12"@))
    } else if arity == 13 {
        Some(chain_of("Tuple13"@))
    } else if arity == 14 {
        Some(chain_of("Tuple14"@))
    } else if arity == 15 {
        Some(chain_of("Tuple15"@))
    } else if arity == 16 {
        Some(chain_of("Tuple16"@))
    } else {
        None
    }
}

} // verus!
