//! One incoming command line, split on the `|||` field separator into an
//! ordered list of fields that are consumed one by one.

use vstd::prelude::*;

verus! {

use vstd::string::StrSliceExecFns;

/// True when the three-character field separator `|||` starts at `i`.
pub open spec fn sep_at(s: Seq<char>, i: int) -> bool {
    &&& i + 3 <= s.len()
    &&& s[i] == '|'
    &&& s[i + 1] == '|'
    &&& s[i + 2] == '|'
}

/// The fields of a command line: the pieces between occurrences of the
/// separator, leftmost occurrence first. An empty line has one empty field.
pub open spec fn split_fields(s: Seq<char>) -> Seq<Seq<char>>
    decreases s.len(),
{
    if s.len() == 0 {
        seq![Seq::<char>::empty()]
    } else if sep_at(s, 0) {
        seq![Seq::<char>::empty()] + split_fields(s.skip(3))
    } else {
        let rest = split_fields(s.skip(1));
        seq![seq![s[0]] + rest[0]] + rest.skip(1)
    }
}

/// The first field extended at the front by `c`.
spec fn merge_first(c: Seq<char>, r: Seq<Seq<char>>) -> Seq<Seq<char>> {
    seq![c + r[0]] + r.skip(1)
}

proof fn lemma_split_fields_nonempty(s: Seq<char>)
    ensures
        split_fields(s).len() >= 1,
    decreases s.len(),
{
    if s.len() == 0 {
    } else if sep_at(s, 0) {
    } else {
        lemma_split_fields_nonempty(s.skip(1));
    }
}

/// True when the piece holds no pipe character, so no separator can hide
/// in it or arise at its edges.
pub open spec fn pipe_free(s: Seq<char>) -> bool {
    forall|j: int| 0 <= j < s.len() ==> s[j] != '|'
}

/// A piece that holds no pipe character at all can hold no separator, so
/// it splits into itself alone.
pub proof fn lemma_split_fields_no_pipe(b: Seq<char>)
    requires
        pipe_free(b),
    ensures
        split_fields(b) == seq![b],
    decreases b.len(),
{
    if b.len() == 0 {
        assert(b =~= Seq::<char>::empty());
    } else {
        assert(!sep_at(b, 0));
        lemma_split_fields_no_pipe(b.skip(1));
        let rest = split_fields(b.skip(1));
        assert(rest[0] == b.skip(1));
        assert(seq![b[0]] + b.skip(1) =~= b);
        assert(split_fields(b) =~~= seq![b]);
    }
}

/// When the part before a separator holds no pipe character, the split
/// puts it first, whole, and goes on after the separator.
pub proof fn lemma_split_fields_at_sep(a: Seq<char>, b: Seq<char>)
    requires
        pipe_free(a),
    ensures
        split_fields(a + seq!['|', '|', '|'] + b) == seq![a] + split_fields(b),
    decreases a.len(),
{
    let full = a + seq!['|', '|', '|'] + b;
    if a.len() == 0 {
        assert(sep_at(full, 0));
        assert(full.skip(3) =~= b);
        assert(a =~= Seq::<char>::empty());
        assert(split_fields(full) =~~= seq![a] + split_fields(b));
    } else {
        assert(full[0] == a[0]);
        assert(!sep_at(full, 0));
        assert(full.skip(1) =~= a.skip(1) + seq!['|', '|', '|'] + b);
        lemma_split_fields_at_sep(a.skip(1), b);
        let rest = split_fields(full.skip(1));
        assert(rest == seq![a.skip(1)] + split_fields(b));
        assert(rest[0] == a.skip(1));
        assert(seq![full[0]] + a.skip(1) =~= a);
        assert(rest.skip(1) =~= split_fields(b));
        assert(split_fields(full) =~~= seq![a] + split_fields(b));
    }
}

/// The line that carries the given fields: the fields joined by the
/// separator, in order.
pub open spec fn join_fields(fields: Seq<Seq<char>>) -> Seq<char>
    decreases fields.len(),
{
    if fields.len() == 0 {
        Seq::empty()
    } else if fields.len() == 1 {
        fields[0]
    } else {
        fields[0] + seq!['|', '|', '|'] + join_fields(fields.skip(1))
    }
}

/// Splitting a joined line gives back exactly the fields — provided no
/// field holds a pipe character. The separator cannot be escaped: a field
/// holding it cannot be carried by this grammar.
pub proof fn lemma_join_then_split(fields: Seq<Seq<char>>)
    requires
        fields.len() > 0,
        forall|i: int| 0 <= i < fields.len() ==> pipe_free(#[trigger] fields[i]),
    ensures
        split_fields(join_fields(fields)) == fields,
    decreases fields.len(),
{
    if fields.len() == 1 {
        lemma_split_fields_no_pipe(fields[0]);
        assert(seq![fields[0]] =~~= fields);
    } else {
        assert(forall|i: int|
            0 <= i < fields.skip(1).len() ==> pipe_free(#[trigger] fields.skip(1)[i]));
        lemma_join_then_split(fields.skip(1));
        lemma_split_fields_at_sep(fields[0], join_fields(fields.skip(1)));
        assert(seq![fields[0]] + fields.skip(1) =~~= fields);
    }
}

/// A request: the fields of one command line, read in order. Reading past
/// the last field yields empty strings.
pub struct Request {
    fields: Vec<String>,
    pos: usize,
}

impl Request {
    /// The fields not yet consumed.
    pub closed spec fn remaining(&self) -> Seq<Seq<char>> {
        if self.pos <= self.fields.len() {
            self.fields.deep_view().skip(self.pos as int)
        } else {
            Seq::empty()
        }
    }

    /// Splits the line on `|||`.
    pub fn new(s: &str) -> (r: Request)
        ensures
            r.remaining() == split_fields(s@),
    {
        let fields = split_line(s);
        let r = Request { fields, pos: 0 };
        proof {
            assert(r.remaining() =~= split_fields(s@));
        }
        r
    }

    /// Hands out the next field, or an empty string when none is left.
    pub fn next(&mut self) -> (r: String)
        ensures
            old(self).remaining().len() > 0 ==> {
                &&& r@ == old(self).remaining()[0]
                &&& final(self).remaining() == old(self).remaining().skip(1)
            },
            old(self).remaining().len() == 0 ==> {
                &&& r@ == Seq::<char>::empty()
                &&& final(self).remaining() == old(self).remaining()
            },
    {
        if self.pos < self.fields.len() {
            let r = self.fields[self.pos].clone();
            self.pos = self.pos + 1;
            proof {
                assert(r@ == old(self).remaining()[0]);
                assert(self.remaining() =~= old(self).remaining().skip(1));
            }
            r
        } else {
            String::new()
        }
    }
}

/// Splits a line on the `|||` separator, leftmost occurrence first.
fn split_line(s: &str) -> (fields: Vec<String>)
    ensures
        fields.deep_view() == split_fields(s@),
{
    let n = s.unicode_len();
    let mut fields: Vec<String> = Vec::new();
    let mut start: usize = 0;
    let mut i: usize = 0;
    proof {
        lemma_split_fields_nonempty(s@);
        assert(s@.skip(0) =~= s@);
        assert(fields.deep_view() =~= Seq::<Seq<char>>::empty());
        assert(merge_first(s@.subrange(0, 0), split_fields(s@)) =~~= split_fields(s@));
    }
    while i < n
        invariant
            start <= i <= n,
            n == s@.len(),
            split_fields(s@) == fields.deep_view() + merge_first(
                s@.subrange(start as int, i as int),
                split_fields(s@.skip(i as int)),
            ),
        decreases n - i,
    {
        if n - i >= 3 && s.get_char(i) == '|' && s.get_char(i + 1) == '|' && s.get_char(i + 2)
            == '|' {
            let piece = s.substring_char(start, i).to_owned();
            proof {
                let t = s@.skip(i as int);
                assert(sep_at(t, 0));
                assert(t.len() != 0);
                assert(split_fields(t) == seq![Seq::<char>::empty()] + split_fields(t.skip(3)));
                assert(t.skip(3) =~= s@.skip(i + 3));
                let cur = s@.subrange(start as int, i as int);
                assert(merge_first(cur, split_fields(t)) =~~= seq![cur] + split_fields(
                    s@.skip(i + 3),
                ));
                lemma_split_fields_nonempty(s@.skip(i + 3));
                assert(merge_first(
                    s@.subrange(i + 3, i + 3),
                    split_fields(s@.skip(i + 3)),
                ) =~~= split_fields(s@.skip(i + 3)));
            }
            let ghost pre_deep = fields.deep_view();
            fields.push(piece);
            proof {
                assert(fields.deep_view() =~~= pre_deep + seq![piece@]);
            }
            i = i + 3;
            start = i;
        } else {
            let ghost old_i = i as int;
            i = i + 1;
            proof {
                let t = s@.skip(old_i);
                assert(t.len() > 0);
                assert(!sep_at(t, 0)) by {
                    if sep_at(t, 0) {
                        assert(s@[old_i] == '|' && s@[old_i + 1] == '|' && s@[old_i + 2] == '|');
                    }
                }
                let rest = split_fields(t.skip(1));
                assert(split_fields(t) == seq![seq![t[0]] + rest[0]] + rest.skip(1));
                assert(t.skip(1) =~= s@.skip(old_i + 1));
                let cur = s@.subrange(start as int, old_i);
                let cur2 = s@.subrange(start as int, old_i + 1);
                assert(cur2 =~= cur.push(s@[old_i]));
                assert(merge_first(cur, split_fields(t)) =~~= merge_first(
                    cur2,
                    split_fields(s@.skip(old_i + 1)),
                ));
            }
        }
    }
    let piece = s.substring_char(start, n).to_owned();
    proof {
        assert(s@.skip(n as int).len() == 0);
        assert(split_fields(s@.skip(n as int)) == seq![Seq::<char>::empty()]);
        assert(merge_first(s@.subrange(start as int, n as int), split_fields(s@.skip(n as int)))
            =~~= seq![s@.subrange(start as int, n as int)]);
    }
    let ghost pre_deep = fields.deep_view();
    fields.push(piece);
    proof {
        assert(fields.deep_view() =~~= pre_deep + seq![piece@]);
        assert(fields.deep_view() =~~= split_fields(s@));
    }
    fields
}

} // verus!
