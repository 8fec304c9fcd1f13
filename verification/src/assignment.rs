//! The C++ statement that assigns a preset value to a field of a message,
//! the field being given by a path such as `pose.points[3].x`.

use crate::schema::EventMessageDefaultValue;
use vstd::prelude::*;
use vstd::string::{StrSliceExecFns, StringExecFns};

verus! {

/// What is known of a path segment after a number of its characters: where
/// its name ends, where the last bracket opened, and the indices read so
/// far, each written in brackets.
pub struct Scan {
    pub opened: bool,
    pub name_end: int,
    pub begin: int,
    pub indices: Seq<char>,
}

/// The scan of the first `n` characters of a segment. The name of the
/// segment ends at its first opening bracket. A closing bracket ends an
/// index, which begins after the last opening bracket; an empty index is
/// left out.
pub open spec fn scan(segment: Seq<char>, n: int) -> Scan
    decreases n,
{
    if n <= 0 {
        Scan { opened: false, name_end: segment.len() as int, begin: 0, indices: Seq::empty() }
    } else {
        let before = scan(segment, n - 1);
        let c = segment[n - 1];
        if c == '[' {
            Scan {
                opened: true,
                name_end: if before.opened {
                    before.name_end
                } else {
                    n - 1
                },
                begin: n,
                indices: before.indices,
            }
        } else if c == ']' && before.begin < n - 1 {
            Scan {
                indices: before.indices + "["@ + segment.subrange(before.begin, n - 1) + "]"@,
                ..before
            }
        } else {
            before
        }
    }
}

/// A segment of a path as C++ writes it: its name as a call, then its
/// indices.
pub open spec fn accessor(segment: Seq<char>) -> Seq<char> {
    let done = scan(segment, segment.len() as int);
    segment.subrange(0, done.name_end) + "()"@ + done.indices
}

/// What is known of a path after a number of its characters: the
/// accessors of the segments that ended, with dots between them, how many
/// they are, and where the segment under way began.
pub struct Walk {
    pub out: Seq<char>,
    pub count: nat,
    pub start: int,
}

/// `out` with the accessor of `segment` added, after a dot where it is not
/// the first; `out` as it is for an empty segment.
pub open spec fn with_segment(out: Seq<char>, count: nat, segment: Seq<char>) -> Seq<char> {
    if segment.len() == 0 {
        out
    } else if count > 0 {
        out + "."@ + accessor(segment)
    } else {
        out + accessor(segment)
    }
}

/// The walk over the first `n` characters of a path. A dot ends a segment.
pub open spec fn walk(path: Seq<char>, n: int) -> Walk
    decreases n,
{
    if n <= 0 {
        Walk { out: Seq::empty(), count: 0, start: 0 }
    } else {
        let before = walk(path, n - 1);
        if path[n - 1] == '.' {
            let segment = path.subrange(before.start, n - 1);
            Walk {
                out: with_segment(before.out, before.count, segment),
                count: if segment.len() > 0 {
                    before.count + 1
                } else {
                    before.count
                },
                start: n,
            }
        } else {
            before
        }
    }
}

/// A path as C++ writes it: the accessors of its segments with dots
/// between them. Empty segments are left out.
pub open spec fn accessors(path: Seq<char>) -> Seq<char> {
    let done = walk(path, path.len() as int);
    with_segment(done.out, done.count, path.subrange(done.start, path.len() as int))
}

/// Writes a segment of a path as C++ writes it.
pub fn write_accessor(segment: &str) -> (r: String)
    ensures
        r@ == accessor(segment@),
{
    let n = segment.unicode_len();
    let mut opened = false;
    let mut name_end: usize = n;
    let mut begin: usize = 0;
    let mut indices = String::new();
    let mut i: usize = 0;
    while i < n
        invariant
            i <= n,
            n == segment@.len(),
            begin <= i,
            name_end <= n,
            scan(segment@, i as int) == (Scan {
                opened,
                name_end: name_end as int,
                begin: begin as int,
                indices: indices@,
            }),
        decreases n - i,
    {
        let c = segment.get_char(i);
        if c == '[' {
            if !opened {
                opened = true;
                name_end = i;
            }
            begin = i + 1;
        } else if c == ']' && begin < i {
            indices.append("[");
            indices.append(segment.substring_char(begin, i));
            indices.append("]");
        }
        i = i + 1;
    }
    let mut result = String::from_str(segment.substring_char(0, name_end));
    result.append("()");
    result.append(indices.as_str());
    result
}

/// Writes a path as C++ writes it.
pub fn write_accessors(path: &str) -> (r: String)
    ensures
        r@ == accessors(path@),
{
    let n = path.unicode_len();
    let mut out = String::new();
    let mut count: usize = 0;
    let mut start: usize = 0;
    let mut i: usize = 0;
    while i < n
        invariant
            i <= n,
            n == path@.len(),
            start <= i,
            count <= i,
            walk(path@, i as int) == (Walk { out: out@, count: count as nat, start: start as int }),
        decreases n - i,
    {
        if path.get_char(i) == '.' {
            if start < i {
                if count > 0 {
                    out.append(".");
                }
                let piece = write_accessor(path.substring_char(start, i));
                out.append(piece.as_str());
                count = count + 1;
            }
            start = i + 1;
        }
        i = i + 1;
    }
    if start < n {
        if count > 0 {
            out.append(".");
        }
        let piece = write_accessor(path.substring_char(start, n));
        out.append(piece.as_str());
    }
    out
}

/// A record that can be written as a C++ assignment to a field.
pub trait FieldAssignmentCppCode {
    /// The statement: after `prefix_code`, the path to the field, then the
    /// value.
    spec fn spec_assignment(&self, prefix_code: Seq<char>) -> Seq<char>;

    fn field_member_assignment_string_to_cpp_code(&self, prefix_code: &str) -> (r: String)
        ensures
            r@ == self.spec_assignment(prefix_code@),
    ;
}

impl FieldAssignmentCppCode for EventMessageDefaultValue {
    /// A preset without a name or without a value gives no statement.
    open spec fn spec_assignment(&self, prefix_code: Seq<char>) -> Seq<char> {
        if self.name@.len() == 0 || self.value@.len() == 0 {
            Seq::empty()
        } else {
            prefix_code + accessors(self.name@) + " = "@ + self.value@ + ";"@
        }
    }

    fn field_member_assignment_string_to_cpp_code(&self, prefix_code: &str) -> (r: String) {
        if self.name.as_str().is_empty() || self.value.as_str().is_empty() {
            return String::new();
        }
        let path = write_accessors(self.name.as_str());
        let mut result = String::from_str(prefix_code);
        result.append(path.as_str());
        result.append(" = ");
        result.append(self.value.as_str());
        result.append(";");
        result
    }
}

} // verus!
