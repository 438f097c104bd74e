//! The grammar of the text format that meshes are read from.
//!
//! A mesh file is a sequence of lines: the word `kcply`, a line
//! `element vertex N`, a line `element face M`, then N lines of three
//! coordinates and M lines of the form `3 a b c` that name the corners of a
//! face. The fields of a line are separated by single spaces. The library
//! takes one line at a time, as bytes, and reads everything but the
//! coordinates, whose fields it only finds.

use vstd::prelude::*;
use crate::poly_mesh::Triange;

verus! {

/// The byte that separates the fields of a line.
pub const SPACE: u8 = 32;

/// The byte `+`, which may stand before a number.
pub const PLUS: u8 = 43;

/// The byte `0`.
pub const ZERO: u8 = 48;

/// The byte `9`.
pub const NINE: u8 = 57;

/// What can be wrong with a mesh file, as far as the library reads it.
#[derive(Clone, Copy, Debug, PartialEq, Eq, Structural)]
pub enum MeshError {
    /// The first line is not `kcply`.
    WrongFormat,
    /// The second line does not start with `element vertex`.
    VertexLineStart,
    /// The second line has no third field.
    VertexLineNoNumber,
    /// The third field of the second line is no number.
    VertexNumber,
    /// The third line does not start with `element face `.
    FacesLineStart,
    /// The third line has no third field.
    FacesLineNoNumber,
    /// The third field of the third line is no number.
    FacesNumber,
    /// The first field of a face line is no number.
    FaceCount,
    /// A face line does not start with 3.
    FaceNotTriangle,
    /// A face line lacks its first, second or third corner.
    MissingCorner(u8),
    /// A corner of a face is no number.
    CornerNumber,
}

impl MeshError {
    /// The text that tells a reader what is wrong.
    pub open spec fn text(self) -> Seq<char> {
        match self {
            MeshError::WrongFormat => "Wrong file format."@,
            MeshError::VertexLineStart => "Vertex line malformed (wrong start)."@,
            MeshError::VertexLineNoNumber => "Vertex line malformed (no number)."@,
            MeshError::VertexNumber => "Vertex number malformed."@,
            MeshError::FacesLineStart => "Faces line malformed (wrong start)."@,
            MeshError::FacesLineNoNumber => "Faces line malformed (no number)."@,
            MeshError::FacesNumber => "Faces number malformed."@,
            MeshError::FaceCount => "Malformed coordinate"@,
            MeshError::FaceNotTriangle => "Face does not start with 3."@,
            MeshError::MissingCorner(n) => if n == 1 {
                "Missing face (1)"@
            } else if n == 2 {
                "Missing face (2)"@
            } else {
                "Missing face (3)"@
            },
            MeshError::CornerNumber => "Malformed vertex index"@,
        }
    }

    /// Gives the text that tells a reader what is wrong.
    pub fn message(&self) -> (text: &'static str)
        ensures
            text@ == self.text(),
    {
        match self {
            MeshError::WrongFormat => "Wrong file format.",
            MeshError::VertexLineStart => "Vertex line malformed (wrong start).",
            MeshError::VertexLineNoNumber => "Vertex line malformed (no number).",
            MeshError::VertexNumber => "Vertex number malformed.",
            MeshError::FacesLineStart => "Faces line malformed (wrong start).",
            MeshError::FacesLineNoNumber => "Faces line malformed (no number).",
            MeshError::FacesNumber => "Faces number malformed.",
            MeshError::FaceCount => "Malformed coordinate",
            MeshError::FaceNotTriangle => "Face does not start with 3.",
            MeshError::MissingCorner(n) => {
                if *n == 1 {
                    "Missing face (1)"
                } else if *n == 2 {
                    "Missing face (2)"
                } else {
                    "Missing face (3)"
                }
            },
            MeshError::CornerNumber => "Malformed vertex index",
        }
    }
}

/// The word that a mesh file starts with.
pub open spec fn magic() -> Seq<u8> {
    seq![107u8, 99u8, 112u8, 108u8, 121u8]
}

/// The words that the line with the number of vertices starts with.
pub open spec fn vertex_prefix() -> Seq<u8> {
    seq![
        101u8, 108u8, 101u8, 109u8, 101u8, 110u8, 116u8, 32u8, 118u8, 101u8, 114u8, 116u8, 101u8,
        120u8,
    ]
}

/// The words, with the space behind them, that the line with the number of
/// faces starts with.
pub open spec fn face_prefix() -> Seq<u8> {
    seq![
        101u8, 108u8, 101u8, 109u8, 101u8, 110u8, 116u8, 32u8, 102u8, 97u8, 99u8, 101u8, 32u8,
    ]
}

/// Whether `line` starts with `prefix`.
pub open spec fn starts_with(line: Seq<u8>, prefix: Seq<u8>) -> bool {
    prefix.len() <= line.len() && line.subrange(0, prefix.len() as int) == prefix
}

/// Where the field that starts at `from` ends: at the next space, or at the
/// end of the line.
pub open spec fn field_end(line: Seq<u8>, from: int) -> int
    decreases line.len() - from,
{
    if from < 0 || from >= line.len() {
        line.len() as int
    } else if line[from] == SPACE {
        from
    } else {
        field_end(line, from + 1)
    }
}

/// Where field `n` of the line starts, counting from 0: the first field at
/// the start of the line, every other one behind the space that ends the
/// field before it. `None` if the line has no such field.
pub open spec fn field_start(line: Seq<u8>, n: nat) -> Option<int>
    decreases n,
{
    if n == 0 {
        Some(0)
    } else {
        match field_start(line, (n - 1) as nat) {
            None => None,
            Some(s) => if field_end(line, s) < line.len() {
                Some(field_end(line, s) + 1)
            } else {
                None
            },
        }
    }
}

/// Field `n` of the line.
pub open spec fn field(line: Seq<u8>, n: nat) -> Option<Seq<u8>> {
    match field_start(line, n) {
        Some(s) => Some(line.subrange(s, field_end(line, s))),
        None => None,
    }
}

/// The number that a string of digits writes, in base ten.
pub open spec fn digits_value(digits: Seq<u8>) -> nat
    decreases digits.len(),
{
    if digits.len() == 0 {
        0
    } else {
        digits_value(digits.drop_last()) * 10 + (digits.last() - ZERO) as nat
    }
}

/// Whether every byte is a digit.
pub open spec fn all_digits(digits: Seq<u8>) -> bool {
    forall|i: int| 0 <= i < digits.len() ==> ZERO <= #[trigger] digits[i] <= NINE
}

/// The digits of a number: what follows its `+`, if it has one.
pub open spec fn digits_of(text: Seq<u8>) -> Seq<u8> {
    if text.len() > 0 && text[0] == PLUS {
        text.subrange(1, text.len() as int)
    } else {
        text
    }
}

/// The index that a text writes: an optional `+` and then one digit or
/// more, and nothing else, with a value that the index type holds.
pub open spec fn index_of(text: Seq<u8>) -> Option<usize> {
    let digits = digits_of(text);
    if digits.len() > 0 && all_digits(digits) && digits_value(digits) <= usize::MAX {
        Some(digits_value(digits) as usize)
    } else {
        None
    }
}

/// The index that field `n` of a line writes.
pub open spec fn index_field(line: Seq<u8>, n: nat) -> Option<usize> {
    match field(line, n) {
        Some(text) => index_of(text),
        None => None,
    }
}

/// A longer string of digits writes no smaller number.
pub proof fn digits_value_grows(digits: Seq<u8>, k: int)
    requires
        0 <= k <= digits.len(),
        all_digits(digits),
    ensures
        digits_value(digits.take(k)) <= digits_value(digits),
    decreases digits.len() - k,
{
    if k < digits.len() {
        digits_value_grows(digits, k + 1);
        assert(digits.take(k + 1).drop_last() == digits.take(k));
        assert(digits.take(k + 1).last() == digits[k]);
    } else {
        assert(digits.take(k) == digits);
    }
}

/// Tells whether `line` starts with `prefix`.
pub fn has_prefix(line: &Vec<u8>, prefix: &Vec<u8>) -> (b: bool)
    ensures
        b == starts_with(line@, prefix@),
{
    if prefix.len() > line.len() {
        return false;
    }
    let mut i: usize = 0;
    while i < prefix.len()
        invariant
            i <= prefix.len() <= line.len(),
            forall|k: int| 0 <= k < i ==> line@[k] == prefix@[k],
        decreases prefix.len() - i,
    {
        if line[i] != prefix[i] {
            assert(line@.subrange(0, prefix@.len() as int)[i as int] != prefix@[i as int]);
            return false;
        }
        i += 1;
    }
    assert(line@.subrange(0, prefix@.len() as int) =~= prefix@);
    true
}

/// Finds the end of the field that starts at `from`.
pub fn find_field_end(line: &Vec<u8>, from: usize) -> (end: usize)
    requires
        from <= line@.len(),
    ensures
        end == field_end(line@, from as int),
        from <= end <= line@.len(),
{
    let mut i: usize = from;
    while i < line.len() && line[i] != SPACE
        invariant
            from <= i <= line.len(),
            field_end(line@, i as int) == field_end(line@, from as int),
        decreases line.len() - i,
    {
        i += 1;
    }
    i
}

/// Finds field `n` of a line: the positions of its first byte and of the
/// byte behind its last.
pub fn find_field(line: &Vec<u8>, n: usize) -> (bounds: Option<(usize, usize)>)
    ensures
        match bounds {
            Some((start, end)) => field_start(line@, n as nat) == Some(start as int) && end
                == field_end(line@, start as int) && start <= end <= line@.len(),
            None => field_start(line@, n as nat) is None,
        },
{
    let mut start: usize = 0;
    let mut k: usize = 0;
    while k < n
        invariant
            k <= n,
            start <= line.len(),
            field_start(line@, k as nat) == Some(start as int),
        decreases n - k,
    {
        let end = find_field_end(line, start);
        if end >= line.len() {
            proof {
                missing_field_stays_missing(line@, (k + 1) as nat, n as nat);
            }
            return None;
        }
        start = end + 1;
        k += 1;
    }
    let end = find_field_end(line, start);
    Some((start, end))
}

/// A line that lacks a field lacks every later one.
pub proof fn missing_field_stays_missing(line: Seq<u8>, n: nat, later: nat)
    requires
        field_start(line, n) is None,
        n <= later,
    ensures
        field_start(line, later) is None,
    decreases later,
{
    if later > n {
        missing_field_stays_missing(line, n, (later - 1) as nat);
    }
}

/// Reads the index that the bytes from `start` up to `end` write.
pub fn parse_index(line: &Vec<u8>, start: usize, end: usize) -> (index: Option<usize>)
    requires
        start <= end <= line@.len(),
    ensures
        index == index_of(line@.subrange(start as int, end as int)),
{
    let ghost text = line@.subrange(start as int, end as int);
    let first: usize = if start < end && line[start] == PLUS {
        start + 1
    } else {
        start
    };
    let ghost digits = digits_of(text);
    assert(digits == line@.subrange(first as int, end as int));
    if first == end {
        assert(index_of(text) is None);
        return None;
    }
    let mut value: usize = 0;
    let mut i: usize = first;
    while i < end
        invariant
            first <= i <= end <= line@.len(),
            digits == line@.subrange(first as int, end as int),
            digits == digits_of(text),
            text == line@.subrange(start as int, end as int),
            all_digits(digits.take(i - first)),
            value == digits_value(digits.take(i - first)),
        decreases end - i,
    {
        let b: u8 = line[i];
        if b < ZERO || b > NINE {
            assert(digits[i - first] == b);
            assert(!all_digits(digits));
            assert(index_of(text) is None);
            return None;
        }
        let ghost so_far = digits.take(i - first);
        let ghost next = digits.take(i + 1 - first);
        proof {
            assert(next.drop_last() == so_far);
            assert(next.last() == b);
            assert forall|k: int| 0 <= k < next.len() implies ZERO <= #[trigger] next[k] <= NINE by {
                if k < so_far.len() {
                    assert(so_far[k] == next[k]);
                }
            }
            if all_digits(digits) {
                digits_value_grows(digits, i + 1 - first);
            }
        }
        let d: usize = (b - ZERO) as usize;
        if value > (usize::MAX - d) / 10 {
            assert(digits_value(next) > usize::MAX);
            assert(index_of(text) is None);
            return None;
        }
        value = value * 10 + d;
        i += 1;
    }
    assert(digits.take(end - first) == digits);
    assert(index_of(text) == Some(value));
    Some(value)
}

/// Reads the index that field `n` of a line writes, if the line has the
/// field and the field writes one.
pub fn parse_index_field(line: &Vec<u8>, n: usize) -> (index: Option<usize>)
    ensures
        index == index_field(line@, n as nat),
{
    match find_field(line, n) {
        Some((start, end)) => parse_index(line, start, end),
        None => None,
    }
}

/// Tells whether a line is the word that a mesh file starts with.
pub fn is_magic(line: &Vec<u8>) -> (b: bool)
    ensures
        b == (line@ == magic()),
{
    let b = line.len() == 5 && line[0] == 107 && line[1] == 99 && line[2] == 112 && line[3] == 108
        && line[4] == 121;
    proof {
        if b {
            assert(line@ =~= magic());
        }
    }
    b
}

/// What the line with a count holds: the count in its third field, if the
/// line starts with `prefix`; else what is wrong with it.
pub open spec fn count_of(
    line: Seq<u8>,
    prefix: Seq<u8>,
    wrong_start: MeshError,
    no_number: MeshError,
    bad_number: MeshError,
) -> Result<usize, MeshError> {
    if !starts_with(line, prefix) {
        Err(wrong_start)
    } else if field(line, 2) is None {
        Err(no_number)
    } else {
        match index_field(line, 2) {
            Some(count) => Ok(count),
            None => Err(bad_number),
        }
    }
}

/// Reads the number of vertices from the second line of a mesh file.
pub fn parse_vertex_count(line: &Vec<u8>) -> (count: Result<usize, MeshError>)
    ensures
        count == count_of(
            line@,
            vertex_prefix(),
            MeshError::VertexLineStart,
            MeshError::VertexLineNoNumber,
            MeshError::VertexNumber,
        ),
{
    let mut prefix: Vec<u8> = Vec::new();
    prefix.push(101);
    prefix.push(108);
    prefix.push(101);
    prefix.push(109);
    prefix.push(101);
    prefix.push(110);
    prefix.push(116);
    prefix.push(32);
    prefix.push(118);
    prefix.push(101);
    prefix.push(114);
    prefix.push(116);
    prefix.push(101);
    prefix.push(120);
    assert(prefix@ =~= vertex_prefix());
    if !has_prefix(line, &prefix) {
        return Err(MeshError::VertexLineStart);
    }
    match find_field(line, 2) {
        None => Err(MeshError::VertexLineNoNumber),
        Some((start, end)) => match parse_index(line, start, end) {
            Some(count) => Ok(count),
            None => Err(MeshError::VertexNumber),
        },
    }
}

/// Reads the number of faces from the third line of a mesh file.
pub fn parse_face_count(line: &Vec<u8>) -> (count: Result<usize, MeshError>)
    ensures
        count == count_of(
            line@,
            face_prefix(),
            MeshError::FacesLineStart,
            MeshError::FacesLineNoNumber,
            MeshError::FacesNumber,
        ),
{
    let mut prefix: Vec<u8> = Vec::new();
    prefix.push(101);
    prefix.push(108);
    prefix.push(101);
    prefix.push(109);
    prefix.push(101);
    prefix.push(110);
    prefix.push(116);
    prefix.push(32);
    prefix.push(102);
    prefix.push(97);
    prefix.push(99);
    prefix.push(101);
    prefix.push(32);
    assert(prefix@ =~= face_prefix());
    if !has_prefix(line, &prefix) {
        return Err(MeshError::FacesLineStart);
    }
    match find_field(line, 2) {
        None => Err(MeshError::FacesLineNoNumber),
        Some((start, end)) => match parse_index(line, start, end) {
            Some(count) => Ok(count),
            None => Err(MeshError::FacesNumber),
        },
    }
}

/// What a face line holds: its three corners, if its first field is the
/// number 3 and the next three fields are indices; else the first thing
/// that is wrong with it, reading from the left.
pub open spec fn face_of(line: Seq<u8>) -> Result<Triange, MeshError> {
    match index_field(line, 0) {
        None => Err(MeshError::FaceCount),
        Some(count) => if count != 3 {
            Err(MeshError::FaceNotTriangle)
        } else if field(line, 1) is None {
            Err(MeshError::MissingCorner(1))
        } else if index_field(line, 1) is None {
            Err(MeshError::CornerNumber)
        } else if field(line, 2) is None {
            Err(MeshError::MissingCorner(2))
        } else if index_field(line, 2) is None {
            Err(MeshError::CornerNumber)
        } else if field(line, 3) is None {
            Err(MeshError::MissingCorner(3))
        } else if index_field(line, 3) is None {
            Err(MeshError::CornerNumber)
        } else {
            Ok(Triange(index_field(line, 1)->0, index_field(line, 2)->0, index_field(line, 3)->0))
        },
    }
}

/// Reads corner `n` of a face line.
fn parse_corner(line: &Vec<u8>, n: u8) -> (corner: Result<usize, MeshError>)
    ensures
        corner == (if field(line@, n as nat) is None {
            Err::<usize, MeshError>(MeshError::MissingCorner(n))
        } else {
            match index_field(line@, n as nat) {
                Some(i) => Ok(i),
                None => Err(MeshError::CornerNumber),
            }
        }),
{
    match find_field(line, n as usize) {
        None => Err(MeshError::MissingCorner(n)),
        Some((start, end)) => match parse_index(line, start, end) {
            Some(i) => Ok(i),
            None => Err(MeshError::CornerNumber),
        },
    }
}

/// Reads a face line.
pub fn parse_face(line: &Vec<u8>) -> (face: Result<Triange, MeshError>)
    ensures
        face == face_of(line@),
{
    match parse_index_field(line, 0) {
        None => Err(MeshError::FaceCount),
        Some(count) => {
            if count != 3 {
                return Err(MeshError::FaceNotTriangle);
            }
            let a = match parse_corner(line, 1) {
                Ok(i) => i,
                Err(e) => {
                    return Err(e);
                },
            };
            let b = match parse_corner(line, 2) {
                Ok(i) => i,
                Err(e) => {
                    return Err(e);
                },
            };
            let c = match parse_corner(line, 3) {
                Ok(i) => i,
                Err(e) => {
                    return Err(e);
                },
            };
            Ok(Triange(a, b, c))
        },
    }
}

} // verus!
