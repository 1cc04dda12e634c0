//! The slide and presentation model, and its navigation rules.
//!
//! A [`Slide`] owns one or more textual states (alternate renderings of the
//! same slide; today always exactly one) and the index of the state on show.
//! A [`Presentation`] owns the slides, the index of the slide on show, and a
//! quit flag that only ever moves from false to true. Navigation saturates:
//! advancing past the last slide and retreating at the lower bound are no-ops.

use vstd::prelude::*;
use vstd::string::StringExecFns;

verus! {

/// The text of a sequence of lines joined by newlines: the empty text for no
/// lines, and otherwise the lines in order with one newline between each pair.
pub open spec fn join_lines(s: Seq<Seq<char>>) -> Seq<char>
    decreases s.len(),
{
    if s.len() == 0 {
        Seq::empty()
    } else if s.len() == 1 {
        s[0]
    } else {
        join_lines(s.drop_last()) + "\n"@ + s.last()
    }
}

/// Join raw lines into one text with a newline between each pair.
fn join_strings(lines: &Vec<String>) -> (r: String)
    ensures
        r@ == join_lines(lines.deep_view()),
{
    let mut out = String::new();
    let mut i: usize = 0;
    while i < lines.len()
        invariant
            i <= lines@.len(),
            out@ == join_lines(lines.deep_view().take(i as int)),
        decreases lines@.len() - i,
    {
        if i > 0 {
            out.append("\n");
        }
        out.append(lines[i].as_str());
        proof {
            assert(lines.deep_view().take(i as int + 1).drop_last() =~= lines.deep_view().take(
                i as int,
            ));
            assert(lines.deep_view().take(i as int + 1).last() == lines.deep_view()[i as int]);
            assert(lines.deep_view()[i as int] == lines@[i as int]@);
        }
        i += 1;
    }
    proof {
        assert(lines.deep_view().take(lines@.len() as int) =~= lines.deep_view());
    }
    out
}

/// One slide: its alternate textual states and the state on show.
pub struct Slide {
    pub states: Vec<String>,
    pub state_idx: usize,
}

impl Slide {
    /// The slide's invariant: the state on show exists.
    pub open spec fn inv(&self) -> bool {
        self.state_idx < self.states@.len()
    }

    /// The text of the state on show.
    pub open spec fn spec_content(&self) -> Seq<char> {
        self.states@[self.state_idx as int]@
    }

    /// Build a slide from its raw text lines: one state holding the lines
    /// joined by newlines, with that state on show.
    pub fn from_lines(lines: &Vec<String>) -> (r: Self)
        ensures
            r.state_idx == 0,
            r.states@.len() == 1,
            r.spec_content() == join_lines(lines.deep_view()),
            r.inv(),
    {
        Self { state_idx: 0, states: vec![join_strings(lines)] }
    }

    /// Get the current content of the slide considering internal state.
    pub fn content(&self) -> (r: &String)
        requires
            self.inv(),
        ensures
            r@ == self.spec_content(),
    {
        &self.states[self.state_idx]
    }

    /// Reset all state within the current slide.
    pub fn reset(&mut self)
        ensures
            final(self).state_idx == 0,
            final(self).states == old(self).states,
            old(self).inv() ==> final(self).inv(),
    {
        self.state_idx = 0;
    }
}

/// A whole presentation: its slides, the slide on show, and the quit flag.
pub struct Presentation {
    pub slide_index: usize,
    pub slides: Vec<Slide>,
    pub should_quit: bool,
}

impl Presentation {
    /// The presentation's invariant: the slide on show exists, and every
    /// slide's own invariant holds.
    pub open spec fn inv(&self) -> bool {
        &&& self.slide_index < self.slides@.len()
        &&& forall|i: int| 0 <= i < self.slides@.len() ==> (#[trigger] self.slides@[i]).inv()
    }

    /// The text of the slide on show, in that slide's current state.
    pub open spec fn spec_content(&self) -> Seq<char> {
        self.slides@[self.slide_index as int].spec_content()
    }

    /// Build a presentation showing the first of the given slides, with the
    /// quit flag clear. A presentation is never built without slides.
    pub fn from_slides(slides: Vec<Slide>) -> (r: Self)
        requires
            slides@.len() > 0,
            forall|i: int| 0 <= i < slides@.len() ==> (#[trigger] slides@[i]).inv(),
        ensures
            r.slide_index == 0,
            r.slides == slides,
            !r.should_quit,
            r.inv(),
    {
        Presentation { slide_index: 0, slides, should_quit: false }
    }

    /// Get the current content of the presentation considering internal state.
    pub fn content(&self) -> (r: String)
        requires
            self.inv(),
        ensures
            r@ == self.spec_content(),
    {
        self.slides[self.slide_index].content().clone()
    }

    /// Reset all state and start over again: show the first slide, and put
    /// every slide back into its first state. The quit flag is untouched.
    pub fn reset(&mut self)
        ensures
            final(self).slide_index == 0,
            final(self).should_quit == old(self).should_quit,
            final(self).slides@.len() == old(self).slides@.len(),
            forall|i: int|
                0 <= i < old(self).slides@.len() ==> (#[trigger] final(self).slides@[i]).state_idx
                    == 0 && final(self).slides@[i].states == old(self).slides@[i].states,
            old(self).inv() ==> final(self).inv(),
    {
        self.slide_index = 0;
        let mut i: usize = 0;
        while i < self.slides.len()
            invariant
                i <= self.slides@.len(),
                self.slides@.len() == old(self).slides@.len(),
                self.slide_index == 0,
                self.should_quit == old(self).should_quit,
                forall|k: int|
                    0 <= k < i ==> (#[trigger] self.slides@[k]).state_idx == 0
                        && self.slides@[k].states == old(self).slides@[k].states,
                forall|k: int| i <= k < self.slides@.len() ==> self.slides@[k] == old(self).slides@[k],
            decreases self.slides@.len() - i,
        {
            self.slides[i].reset();
            i += 1;
        }
    }
}

/// One navigation command for the presentation model.
#[derive(PartialEq, Eq, Debug)]
pub enum Message {
    Next,
    Previous,
    Reset,
    Quit,
}

/// The index shown after advancing once: the next slide, saturating at the
/// last.
pub open spec fn advance_index(i: int, len: int) -> int {
    if i < len - 1 {
        i + 1
    } else {
        i
    }
}

/// The index shown after retreating once: the previous slide, except that the
/// guard stops at one, so retreating from the second slide (or the first) is
/// a no-op.
pub open spec fn retreat_index(i: int) -> int {
    if i > 1 {
        i - 1
    } else {
        i
    }
}

/// Apply one navigation command to the presentation. Advancing and retreating
/// move the slide index by one within its saturating bounds; reset puts the
/// whole presentation back to its first slide and first states; quit raises
/// the quit flag, which no command ever clears. No command touches the
/// slides' text.
pub fn update(presentation: &mut Presentation, msg: Message) -> (r: Option<Message>)
    requires
        old(presentation).inv(),
    ensures
        final(presentation).inv(),
        r is None,
        final(presentation).slides@.len() == old(presentation).slides@.len(),
        old(presentation).should_quit ==> final(presentation).should_quit,
        msg is Next ==> final(presentation).slide_index as int == advance_index(
            old(presentation).slide_index as int,
            old(presentation).slides@.len() as int,
        ) && final(presentation).slides == old(presentation).slides && final(presentation).should_quit == old(presentation).should_quit,
        msg is Previous ==> final(presentation).slide_index as int == retreat_index(
            old(presentation).slide_index as int,
        ) && final(presentation).slides == old(presentation).slides && final(presentation).should_quit == old(presentation).should_quit,
        msg is Reset ==> final(presentation).slide_index == 0 && final(presentation).should_quit
            == old(presentation).should_quit && forall|i: int|
            0 <= i < old(presentation).slides@.len() ==> (#[trigger] final(presentation).slides@[i]).state_idx == 0 && final(presentation).slides@[i].states == old(presentation).slides@[i].states,
        msg is Quit ==> final(presentation).should_quit && final(presentation).slide_index == old(presentation).slide_index && final(presentation).slides == old(presentation).slides,
{
    match msg {
        Message::Next => {
            if presentation.slide_index < presentation.slides.len() - 1 {
                presentation.slide_index = presentation.slide_index + 1;
            }
        },
        Message::Previous => {
            if presentation.slide_index > 1 {
                presentation.slide_index = presentation.slide_index - 1;
            }
        },
        Message::Reset => {
            presentation.reset();
        },
        Message::Quit => {
            presentation.should_quit = true;
        },
    }
    None
}

/// The slide index reached after `k` advances from index `i`.
pub open spec fn advance_steps(i: int, len: int, k: nat) -> int
    decreases k,
{
    if k == 0 {
        i
    } else {
        advance_steps(advance_index(i, len), len, (k - 1) as nat)
    }
}

/// Law: from any slide index, enough repeated advances converge to the last
/// slide and stay there.
pub proof fn lemma_advance_converges(i: int, len: int, k: nat)
    requires
        0 <= i < len,
        k >= len - 1 - i,
    ensures
        advance_steps(i, len, k) == len - 1,
    decreases k,
{
    if k > 0 {
        lemma_advance_converges(advance_index(i, len), len, (k - 1) as nat);
    }
}

} // verus!
