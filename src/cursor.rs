//! Where the previous sync left off, read from the year/month/day directories.

use vstd::prelude::*;

use crate::text::{i32_text_value, parse_i32, parse_u32, u32_text_value};

verus! {

/// A calendar day as the directory tree and the search filter write it.
#[derive(PartialEq, Eq, Structural, Debug)]
pub struct YearMonthDay {
    pub year: i32,
    pub month: u32,
    pub day: u32,
}

/// `a` is ordered before or equal to `b`, character by character, a prefix first.
pub open spec fn name_le(a: Seq<char>, b: Seq<char>) -> bool
    decreases a.len(),
{
    if a.len() == 0 {
        true
    } else if b.len() == 0 {
        false
    } else if a[0] != b[0] {
        (a[0] as int) < (b[0] as int)
    } else {
        name_le(a.drop_first(), b.drop_first())
    }
}

/// The greatest of the names, in the order of `name_le`.
pub open spec fn is_last_name(names: Seq<Seq<char>>, n: Seq<char>) -> bool {
    names.contains(n) && forall|i: int| 0 <= i < names.len() ==> name_le(#[trigger] names[i], n)
}

/// Any two names are ordered one way or the other.
pub proof fn lemma_name_le_total(a: Seq<char>, b: Seq<char>)
    ensures
        name_le(a, b) || name_le(b, a),
    decreases a.len(),
{
    if a.len() > 0 && b.len() > 0 {
        if a[0] == b[0] {
            lemma_name_le_total(a.drop_first(), b.drop_first());
        } else {
            assert((a[0] as int) != (b[0] as int));
        }
    }
}

/// Every name is ordered before or equal to itself.
pub proof fn lemma_name_le_refl(a: Seq<char>)
    ensures
        name_le(a, a),
    decreases a.len(),
{
    if a.len() > 0 {
        lemma_name_le_refl(a.drop_first());
    }
}

/// The order of names is transitive.
pub proof fn lemma_name_le_trans(a: Seq<char>, b: Seq<char>, c: Seq<char>)
    requires
        name_le(a, b),
        name_le(b, c),
    ensures
        name_le(a, c),
    decreases a.len(),
{
    if a.len() > 0 && b.len() > 0 && c.len() > 0 && a[0] == b[0] && b[0] == c[0] {
        lemma_name_le_trans(a.drop_first(), b.drop_first(), c.drop_first());
    }
}

/// Compares two names in the order of `name_le`.
fn name_le_exec(a: &str, b: &str) -> (r: bool)
    ensures
        r == name_le(a@, b@),
{
    let la = a.unicode_len();
    let lb = b.unicode_len();
    let mut i: usize = 0;
    assert(a@.subrange(0, la as int) =~= a@);
    assert(b@.subrange(0, lb as int) =~= b@);
    while i < la && i < lb
        invariant
            la == a@.len(),
            lb == b@.len(),
            i <= la,
            i <= lb,
            name_le(a@, b@) == name_le(a@.subrange(i as int, la as int), b@.subrange(i as int, lb as int)),
        decreases la - i,
    {
        let ca = a.get_char(i);
        let cb = b.get_char(i);
        let ghost sa = a@.subrange(i as int, la as int);
        let ghost sb = b@.subrange(i as int, lb as int);
        assert(sa[0] == ca && sb[0] == cb);
        if ca != cb {
            return (ca as u32) < (cb as u32);
        }
        assert(sa.drop_first() =~= a@.subrange(i + 1, la as int));
        assert(sb.drop_first() =~= b@.subrange(i + 1, lb as int));
        i = i + 1;
    }
    i == la
}

/// The views of a list of names.
pub open spec fn names_view(names: Seq<String>) -> Seq<Seq<char>> {
    names.map_values(|n: String| n@)
}

/// The greatest of `names` in the order of `name_le`, or `None` when there are none.
pub fn last_entry(names: &Vec<String>) -> (r: Option<&String>)
    ensures
        r is None <==> names@.len() == 0,
        r matches Some(n) ==> is_last_name(names_view(names@), n@),
{
    if names.len() == 0 {
        return None;
    }
    let ghost view = names_view(names@);
    let mut best: usize = 0;
    let mut i: usize = 1;
    proof {
        lemma_name_le_refl(view[0]);
    }
    while i < names.len()
        invariant
            view == names_view(names@),
            best < i <= names@.len(),
            forall|j: int| 0 <= j < i ==> name_le(#[trigger] view[j], view[best as int]),
        decreases names@.len() - i,
    {
        if !name_le_exec(names[i].as_str(), names[best].as_str()) {
            proof {
                lemma_name_le_total(view[i as int], view[best as int]);
                assert forall|j: int| 0 <= j < i + 1 implies name_le(
                    #[trigger] view[j],
                    view[i as int],
                ) by {
                    if j < i {
                        lemma_name_le_trans(view[j], view[best as int], view[i as int]);
                    } else {
                        lemma_name_le_refl(view[j]);
                    }
                }
            }
            best = i;
        }
        i = i + 1;
    }
    assert(view[best as int] == names[best as int]@);
    Some(&names[best])
}

/// The date that three directory names write, where each parses as a number.
pub open spec fn date_of_names(year: Seq<char>, month: Seq<char>, day: Seq<char>) -> Option<
    YearMonthDay,
> {
    match (i32_text_value(year), u32_text_value(month), u32_text_value(day)) {
        (Some(y), Some(m), Some(d)) => Some(YearMonthDay { year: y, month: m, day: d }),
        _ => None,
    }
}

/// The date that three directory names write; `None` where one is no number.
pub fn date_from_names(year: &str, month: &str, day: &str) -> (r: Option<YearMonthDay>)
    ensures
        r == date_of_names(year@, month@, day@),
{
    match (parse_i32(year), parse_u32(month), parse_u32(day)) {
        (Some(y), Some(m), Some(d)) => Some(YearMonthDay { year: y, month: m, day: d }),
        _ => None,
    }
}

/// The names of a directory listing; none where it could not be read.
pub open spec fn listed(listing: Option<Vec<String>>) -> Seq<Seq<char>> {
    match listing {
        Some(names) => names_view(names@),
        None => Seq::empty(),
    }
}

/// What the caller does after handing a directory listing to the cursor.
pub enum CursorStep {
    /// List the named entry of the directory just listed.
    Descend(String),
    /// The tree's most recent day.
    Found(YearMonthDay),
    /// A level is empty or absent, or its names are no numbers: no day has
    /// been synced yet.
    Missing,
}

/// Descends from the root of the tree through the greatest name at each of
/// the year, month and day levels.
pub struct DateCursor {
    /// The names chosen so far, root first.
    pub chosen: Vec<String>,
}

impl DateCursor {
    /// At most the year and the month have been chosen.
    pub open spec fn wf(&self) -> bool {
        self.chosen@.len() <= 2
    }

    /// A cursor at the root of the tree.
    pub fn new() -> (r: DateCursor)
        ensures
            r.wf(),
            r.chosen@.len() == 0,
    {
        DateCursor { chosen: Vec::new() }
    }

    /// Takes the listing of the directory the cursor stands at (`None` where
    /// it cannot be read) and says where to go next.
    pub fn step(&mut self, listing: Option<Vec<String>>) -> (r: CursorStep)
        requires
            old(self).wf(),
        ensures
            final(self).wf(),
            listed(listing).len() > 0 ==> {
                exists|n: Seq<char>|
                    {
                        &&& is_last_name(listed(listing), n)
                        &&& if old(self).chosen@.len() < 2 {
                            &&& r matches CursorStep::Descend(d) && d@ == n
                            &&& names_view(final(self).chosen@) == names_view(
                                old(self).chosen@,
                            ).push(n)
                        } else {
                            &&& final(self).chosen@ == old(self).chosen@
                            &&& match date_of_names(
                                old(self).chosen@[0]@,
                                old(self).chosen@[1]@,
                                n,
                            ) {
                                Some(d) => r == CursorStep::Found(d),
                                None => r is Missing,
                            }
                        }
                    }
            },
            listed(listing).len() == 0 ==> {
                &&& r is Missing
                &&& final(self).chosen@ == old(self).chosen@
            },
    {
        let names = match listing {
            Some(names) => names,
            None => {
                return CursorStep::Missing;
            },
        };
        let last = match last_entry(&names) {
            Some(n) => n,
            None => {
                return CursorStep::Missing;
            },
        };
        if self.chosen.len() < 2 {
            let ghost before = names_view(self.chosen@);
            self.chosen.push(last.clone());
            assert(names_view(self.chosen@) =~= before.push(last@));
            CursorStep::Descend(last.clone())
        } else {
            match date_from_names(self.chosen[0].as_str(), self.chosen[1].as_str(), last.as_str()) {
                Some(d) => CursorStep::Found(d),
                None => CursorStep::Missing,
            }
        }
    }
}

} // verus!
