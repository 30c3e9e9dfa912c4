//! Path arithmetic on `/`-separated path strings.
//!
//! Two guards keep resource copies inside their sandboxes: a lexical one on
//! the configured relative path (no absolute path, no `..` that climbs above
//! its start), and a containment check on canonical paths, which also covers
//! symbolic links.

use vstd::prelude::*;

verus! {

/// What has been read of the path component under the cursor.
#[derive(Debug, Clone, Copy, PartialEq, Eq, Structural)]
pub enum Segment {
    /// Nothing yet.
    Empty,
    /// `.`
    Dot,
    /// `..`
    DotDot,
    /// Anything else.
    Name,
}

/// The component read so far, extended by `c` (not a separator).
pub open spec fn grow(seg: Segment, c: char) -> Segment {
    if c == '.' {
        match seg {
            Segment::Empty => Segment::Dot,
            Segment::Dot => Segment::DotDot,
            _ => Segment::Name,
        }
    } else {
        Segment::Name
    }
}

/// Depth below the start once the component `seg` is closed at `depth`.
pub open spec fn close_depth(depth: nat, seg: Segment) -> nat {
    match seg {
        Segment::Name => depth + 1,
        Segment::DotDot => if depth == 0 { 0 } else { (depth - 1) as nat },
        _ => depth,
    }
}

/// Closing `seg` at `depth` climbs above the start.
pub open spec fn climbs(depth: nat, seg: Segment) -> bool {
    seg == Segment::DotDot && depth == 0
}

/// Reading `p` from its start: the depth reached, the open component, and
/// whether some closed `..` component climbed above the start.
pub open spec fn scan(p: Seq<char>) -> (nat, Segment, bool)
    decreases p.len(),
{
    if p.len() == 0 {
        (0, Segment::Empty, false)
    } else {
        let prev = scan(p.drop_last());
        if p.last() == '/' {
            (close_depth(prev.0, prev.1), Segment::Empty, prev.2 || climbs(prev.0, prev.1))
        } else {
            (prev.0, grow(prev.1, p.last()), prev.2)
        }
    }
}

/// Some `..` component of `p` leads above the directory `p` starts from.
pub open spec fn escapes(p: Seq<char>) -> bool {
    scan(p).2 || climbs(scan(p).0, scan(p).1)
}

/// `p` starts at the file system root.
pub open spec fn is_absolute(p: Seq<char>) -> bool {
    p.len() > 0 && p[0] == '/'
}

/// `p`, taken relative to a directory, names a place inside that directory
/// (lexically: without following links).
pub open spec fn stays_inside(p: Seq<char>) -> bool {
    !is_absolute(p) && !escapes(p)
}

/// `rel` taken from `base`: `rel` itself when it is absolute or `base` is
/// empty, else `rel` appended to `base` with one separator between them.
pub open spec fn joined(base: Seq<char>, rel: Seq<char>) -> Seq<char> {
    if base.len() == 0 || is_absolute(rel) {
        rel
    } else if base.last() == '/' {
        base + rel
    } else {
        base + seq!['/'] + rel
    }
}

/// Component-wise prefix: `base` is `path` itself or one of its ancestors.
pub open spec fn within(path: Seq<char>, base: Seq<char>) -> bool {
    base.len() <= path.len() && path.subrange(0, base.len() as int) == base && (base.len()
        == path.len() || (base.len() > 0 && base.last() == '/') || path[base.len() as int] == '/')
}

/// Whether the relative path `rel` stays inside the directory it is taken from.
pub fn check_relative(rel: &str) -> (r: bool)
    ensures
        r == stays_inside(rel@),
{
    let n = rel.unicode_len();
    if n > 0 && rel.get_char(0) == '/' {
        return false;
    }
    let mut depth: usize = 0;
    let mut seg = Segment::Empty;
    let mut climbed = false;
    let mut i: usize = 0;
    while i < n
        invariant
            n == rel@.len(),
            i <= n,
            depth <= i,
            scan(rel@.subrange(0, i as int)) == (depth as nat, seg, climbed),
        decreases n - i,
    {
        let c = rel.get_char(i);
        proof {
            assert(rel@.subrange(0, i + 1).drop_last() == rel@.subrange(0, i as int));
        }
        if c == '/' {
            if seg == Segment::DotDot && depth == 0 {
                climbed = true;
            }
            match seg {
                Segment::Name => depth = depth + 1,
                Segment::DotDot => if depth > 0 {
                    depth = depth - 1;
                },
                _ => {},
            }
            seg = Segment::Empty;
        } else if c == '.' {
            seg = match seg {
                Segment::Empty => Segment::Dot,
                Segment::Dot => Segment::DotDot,
                _ => Segment::Name,
            };
        } else {
            seg = Segment::Name;
        }
        i = i + 1;
    }
    proof {
        assert(rel@.subrange(0, n as int) == rel@);
    }
    !(climbed || (seg == Segment::DotDot && depth == 0))
}

/// `rel` taken from `base`: an absolute `rel` replaces `base`.
pub fn join(base: &str, rel: &str) -> (r: String)
    ensures
        r@ == joined(base@, rel@),
{
    let n = base.unicode_len();
    if n == 0 || (rel.unicode_len() > 0 && rel.get_char(0) == '/') {
        return rel.to_owned();
    }
    let start = base.to_owned();
    if base.get_char(n - 1) == '/' {
        start.concat(rel)
    } else {
        proof {
            reveal_strlit("/");
        }
        start.concat("/").concat(rel)
    }
}

/// Whether `path` is `base` or lies below it, comparing whole components.
/// Both are meant to be canonical.
pub fn is_within(path: &str, base: &str) -> (r: bool)
    ensures
        r == within(path@, base@),
{
    let n = path.unicode_len();
    let m = base.unicode_len();
    if m > n {
        return false;
    }
    let mut i: usize = 0;
    while i < m
        invariant
            n == path@.len(),
            m == base@.len(),
            m <= n,
            i <= m,
            path@.subrange(0, i as int) == base@.subrange(0, i as int),
        decreases m - i,
    {
        if path.get_char(i) != base.get_char(i) {
            proof {
                assert(path@.subrange(0, m as int)[i as int] != base@[i as int]);
            }
            return false;
        }
        proof {
            assert(path@.subrange(0, i + 1) =~= base@.subrange(0, i + 1));
        }
        i = i + 1;
    }
    proof {
        assert(base@.subrange(0, m as int) == base@);
    }
    m == n || (m > 0 && base.get_char(m - 1) == '/') || path.get_char(m) == '/'
}

} // verus!
