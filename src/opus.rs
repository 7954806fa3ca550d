use vstd::prelude::*;
use vstd::string::*;

verus! {

/// What std's `str::to_uppercase` returns for a string.
pub uninterp spec fn upper_of(s: Seq<char>) -> Seq<char>;

/// Relies on std's `str::to_uppercase`: the upper-case form of `s`, which
/// depends on the characters of `s` alone.
#[verifier::external_body]
fn uppercase(s: &str) -> (r: String)
    ensures
        r@ == upper_of(s@),
{
    s.to_uppercase()
}

/// How many times `ch` occurs in `s`.
pub open spec fn count_char(s: Seq<char>, ch: char) -> nat
    decreases s.len(),
{
    if s.len() == 0 {
        0
    } else {
        count_char(s.drop_last(), ch) + if s.last() == ch { 1nat } else { 0nat }
    }
}

/// A comment `LABEL=value` with exactly one `=`.
pub open spec fn well_formed(c: Seq<char>) -> bool {
    count_char(c, '=') == 1
}

/// `c` is `label`, one `=`, and `value`, with no other `=`.
pub open spec fn splits_as(c: Seq<char>, label: Seq<char>, value: Seq<char>) -> bool {
    &&& c == label + seq!['='] + value
    &&& count_char(label, '=') == 0
    &&& count_char(value, '=') == 0
}

pub proof fn lemma_count_concat(a: Seq<char>, b: Seq<char>, ch: char)
    ensures
        count_char(a + b, ch) == count_char(a, ch) + count_char(b, ch),
    decreases b.len(),
{
    if b.len() > 0 {
        lemma_count_concat(a, b.drop_last(), ch);
        assert((a + b).drop_last() =~= a + b.drop_last());
    } else {
        assert(a + b =~= a);
    }
}

/// Splits a comment at its `=`; a comment without exactly one `=` gives
/// nothing.
pub fn split_comment(c: &str) -> (r: Option<(String, String)>)
    ensures
        match r {
            Some((label, value)) => splits_as(c@, label@, value@),
            None => !well_formed(c@),
        },
{
    let n = c.unicode_len();
    let mut count: usize = 0;
    let mut at: usize = 0;
    let mut i: usize = 0;
    while i < n
        invariant
            i <= n,
            n == c@.len(),
            count == count_char(c@.take(i as int), '='),
            count <= i,
            count == 0 ==> at == 0,
            count > 0 ==> at < i && c@[at as int] == '=' && count_char(c@.take(at as int), '=') == 0,
        decreases n - i,
    {
        assert(c@.take(i as int + 1).drop_last() =~= c@.take(i as int));
        if c.get_char(i) == '=' {
            if count == 0 {
                at = i;
            }
            count = count + 1;
        }
        i = i + 1;
    }
    assert(c@.take(n as int) =~= c@);
    if count != 1 {
        return None;
    }
    let label = c.substring_char(0, at);
    let value = c.substring_char(at + 1, n);
    proof {
        assert(c@ =~= c@.take(at as int) + seq!['='] + value@);
        lemma_count_concat(c@.take(at as int), seq!['='], '=');
        lemma_count_concat(c@.take(at as int) + seq!['='], value@, '=');
        assert(seq!['='].drop_last() =~= Seq::<char>::empty());
        assert(label@ =~= c@.take(at as int));
    }
    Some((String::from_str(label), String::from_str(value)))
}

/// `entry` is what the comment `c` is stored as: its label as written, the
/// label in upper case (the key that lookups compare), and its value.
pub open spec fn stored_as(c: Seq<char>, entry: (Seq<char>, Seq<char>, Seq<char>)) -> bool {
    splits_as(c, entry.0, entry.2) && entry.1 == upper_of(entry.0)
}

/// The Vorbis comments of an Opus stream, in stream order: each label as
/// written, its upper-case key, and its value. A label may repeat.
pub struct Tags {
    entries: Vec<(String, String, String)>,
}

impl View for Tags {
    type V = Seq<(Seq<char>, Seq<char>, Seq<char>)>;

    closed spec fn view(&self) -> Seq<(Seq<char>, Seq<char>, Seq<char>)> {
        self.entries@.map_values(|e: (String, String, String)| (e.0@, e.1@, e.2@))
    }
}

/// The values whose key is `key`, in order.
pub open spec fn values_with(entries: Seq<(Seq<char>, Seq<char>, Seq<char>)>, key: Seq<char>) -> Seq<
    Seq<char>,
>
    decreases entries.len(),
{
    if entries.len() == 0 {
        Seq::empty()
    } else {
        let rest = values_with(entries.drop_last(), key);
        if entries.last().1 == key {
            rest.push(entries.last().2)
        } else {
            rest
        }
    }
}

impl Tags {
    /// Reads the raw comments of a stream. If any comment lacks exactly one
    /// `=`, there are no tags.
    pub fn new(comments: &Vec<String>) -> (r: Option<Tags>)
        ensures
            r is Some <==> forall|i: int| 0 <= i < comments@.len() ==> well_formed(
                #[trigger] comments@[i]@,
            ),
            match r {
                Some(t) => t@.len() == comments@.len() && forall|i: int|
                    0 <= i < comments@.len() ==> #[trigger] stored_as(comments@[i]@, t@[i]),
                None => true,
            },
    {
        let mut entries: Vec<(String, String, String)> = Vec::new();
        let n = comments.len();
        let mut i: usize = 0;
        while i < n
            invariant
                i <= n,
                n == comments@.len(),
                entries@.len() == i,
                forall|k: int| 0 <= k < i ==> well_formed(#[trigger] comments@[k]@),
                forall|k: int|
                    0 <= k < i ==> #[trigger] stored_as(
                        comments@[k]@,
                        (entries@[k].0@, entries@[k].1@, entries@[k].2@),
                    ),
            decreases n - i,
        {
            match split_comment(comments[i].as_str()) {
                None => {
                    return None;
                },
                Some((label, value)) => {
                    proof {
                        lemma_count_concat(label@, seq!['='], '=');
                        lemma_count_concat(label@ + seq!['='], value@, '=');
                        assert(seq!['='].drop_last() =~= Seq::<char>::empty());
                        assert(count_char(seq!['='].drop_last(), '=') == 0);
                        assert(seq!['='].last() == '=');
                        assert(count_char(seq!['='], '=') == 1);
                    }
                    let upper = uppercase(label.as_str());
                    entries.push((label, upper, value));
                    assert(stored_as(
                        comments@[i as int]@,
                        (entries@[i as int].0@, entries@[i as int].1@, entries@[i as int].2@),
                    ));
                },
            }
            i = i + 1;
        }
        let t = Tags { entries };
        assert(t@.len() == comments@.len());
        assert forall|k: int| 0 <= k < comments@.len() implies #[trigger] stored_as(
            comments@[k]@,
            t@[k],
        ) by {
            assert(stored_as(comments@[k]@, (t.entries@[k].0@, t.entries@[k].1@, t.entries@[k].2@)));
            assert(t@[k] == (t.entries@[k].0@, t.entries@[k].1@, t.entries@[k].2@));
        }
        Some(t)
    }

    /// The values whose key (the upper-case label) equals `upper_label`.
    pub fn values_for(&self, upper_label: &str) -> (r: Vec<String>)
        ensures
            r@.map_values(|s: String| s@) == values_with(self@, upper_label@),
    {
        let mut r: Vec<String> = Vec::new();
        let n = self.entries.len();
        let mut i: usize = 0;
        while i < n
            invariant
                i <= n,
                n == self.entries@.len(),
                r@.map_values(|s: String| s@) == values_with(self@.take(i as int), upper_label@),
            decreases n - i,
        {
            assert(self@.take(i as int + 1).drop_last() =~= self@.take(i as int));
            let e = &self.entries[i];
            if same_label(&e.1, upper_label) {
                r.push(e.2.clone());
            }
            i = i + 1;
            assert(r@.map_values(|s: String| s@) =~= values_with(
                self@.take(i as int),
                upper_label@,
            ));
        }
        assert(self@.take(n as int) =~= self@);
        r
    }

    /// The values of a tag, the label compared without regard to case.
    pub fn get_tag(&self, tag: &str) -> (r: Vec<String>)
        ensures
            r@.map_values(|s: String| s@) == values_with(self@, upper_of(tag@)),
    {
        let upper = uppercase(tag);
        self.values_for(upper.as_str())
    }
}

fn same_label(a: &String, b: &str) -> (r: bool)
    ensures
        r == (a@ == b@),
{
    crate::text::same_text(a.as_str(), b)
}

} // verus!
