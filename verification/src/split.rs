//! Splitting a raw document into slides on delimiter lines.
//!
//! A line that holds exactly `---` once surrounding whitespace is removed
//! separates two slides. Consecutive delimiters close nothing: a delimiter
//! met while the current slide is still empty is only warned about (except on
//! the very first line). Lines after the last delimiter form a final slide.

use vstd::prelude::*;
use vstd::string::StringExecFns;

use crate::model::join_lines;
use crate::model::Slide;

verus! {

/// The text left when leading and trailing whitespace is removed.
pub uninterp spec fn trim_of(s: Seq<char>) -> Seq<char>;

/// Relies on str::trim: it returns the input without leading and trailing
/// whitespace, a function of the characters alone.
#[verifier::external_body]
fn trimmed(s: &str) -> (r: String)
    ensures
        r@ == trim_of(s@),
{
    s.trim().to_string()
}

/// Whether a raw line separates two slides: it holds exactly `---` once
/// surrounding whitespace is removed.
pub open spec fn spec_is_delimiter(line: Seq<char>) -> bool {
    trim_of(line) == "---"@
}

/// Does this raw line separate two slides?
pub fn is_delimiter(line: &str) -> (r: bool)
    ensures
        r == spec_is_delimiter(line@),
{
    let t = trimmed(line);
    let d = String::from_str("---");
    t == d
}

/// The state of the splitter after reading the given lines: the closed groups
/// of slide lines, the group still open, and the indices of the delimiter
/// lines that closed nothing (an empty slide was ending) and deserve a
/// warning — the very first line excepted.
pub open spec fn split_state(lines: Seq<Seq<char>>) -> (Seq<Seq<Seq<char>>>, Seq<Seq<char>>, Seq<
    int,
>)
    decreases lines.len(),
{
    if lines.len() == 0 {
        (Seq::empty(), Seq::empty(), Seq::empty())
    } else {
        let (groups, cur, warns) = split_state(lines.drop_last());
        let l = lines.last();
        let ln = lines.len() - 1;
        if spec_is_delimiter(l) {
            if cur.len() == 0 {
                if ln != 0 {
                    (groups, cur, warns.push(ln))
                } else {
                    (groups, cur, warns)
                }
            } else {
                (groups.push(cur), Seq::empty(), warns)
            }
        } else {
            (groups, cur.push(l), warns)
        }
    }
}

/// The groups of lines the document splits into, one group per slide; lines
/// after the last delimiter form a final group.
pub open spec fn split_groups(lines: Seq<Seq<char>>) -> Seq<Seq<Seq<char>>> {
    let (groups, cur, warns) = split_state(lines);
    if cur.len() == 0 {
        groups
    } else {
        groups.push(cur)
    }
}

/// The indices of the delimiter lines that end an empty slide.
pub open spec fn split_warnings(lines: Seq<Seq<char>>) -> Seq<int> {
    split_state(lines).2
}

/// Split the raw lines of a document into slides on `---` delimiter lines.
/// Each group of lines becomes one slide showing the group joined by
/// newlines. Also reports the indices of delimiter lines that ended an empty
/// slide, for the caller to warn about.
pub fn split_slides(lines: &Vec<String>) -> (r: (Vec<Slide>, Vec<usize>))
    ensures
        r.0@.len() == split_groups(lines.deep_view()).len(),
        forall|i: int|
            0 <= i < r.0@.len() ==> (#[trigger] r.0@[i]).state_idx == 0 && r.0@[i].states@.len()
                == 1 && r.0@[i].spec_content() == join_lines(split_groups(lines.deep_view())[i])
                && r.0@[i].inv(),
        r.1@.map_values(|w: usize| w as int) == split_warnings(lines.deep_view()),
{
    let mut slides: Vec<Slide> = Vec::new();
    let mut current: Vec<String> = Vec::new();
    let mut warns: Vec<usize> = Vec::new();
    let mut i: usize = 0;
    while i < lines.len()
        invariant
            i <= lines@.len(),
            split_state(lines.deep_view().take(i as int)).0.len() == slides@.len(),
            forall|k: int|
                0 <= k < slides@.len() ==> (#[trigger] slides@[k]).state_idx == 0
                    && slides@[k].states@.len() == 1 && slides@[k].spec_content() == join_lines(
                    split_state(lines.deep_view().take(i as int)).0[k],
                ) && slides@[k].inv(),
            current.deep_view() == split_state(lines.deep_view().take(i as int)).1,
            warns@.map_values(|w: usize| w as int) == split_state(
                lines.deep_view().take(i as int),
            ).2,
        decreases lines@.len() - i,
    {
        let ghost prev = lines.deep_view().take(i as int);
        proof {
            assert(lines.deep_view().take(i as int + 1).drop_last() =~= prev);
            assert(lines.deep_view().take(i as int + 1).last() == lines@[i as int]@);
        }
        if is_delimiter(lines[i].as_str()) {
            if current.is_empty() {
                if i != 0 {
                    warns.push(i);
                    proof {
                        assert(warns@.map_values(|w: usize| w as int) =~= split_state(
                            lines.deep_view().take(i as int + 1),
                        ).2);
                    }
                }
            } else {
                slides.push(Slide::from_lines(&current));
                current = Vec::new();
                proof {
                    assert(split_state(lines.deep_view().take(i as int + 1)).0 =~= split_state(
                        prev,
                    ).0.push(split_state(prev).1));
                    assert(current.deep_view() =~= split_state(
                        lines.deep_view().take(i as int + 1),
                    ).1);
                }
            }
        } else {
            current.push(lines[i].clone());
            proof {
                assert(current.deep_view() =~= split_state(prev).1.push(lines@[i as int]@));
            }
        }
        i += 1;
    }
    proof {
        assert(lines.deep_view().take(lines@.len() as int) =~= lines.deep_view());
    }
    if !current.is_empty() {
        slides.push(Slide::from_lines(&current));
        proof {
            assert(split_groups(lines.deep_view()) =~= split_state(lines.deep_view()).0.push(
                split_state(lines.deep_view()).1,
            ));
        }
    }
    (slides, warns)
}

} // verus!
