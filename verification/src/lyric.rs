//! The lyric synchronizer: finds the caption line that belongs to the
//! current playback position and signals the display only when that line
//! changes.

use vstd::prelude::*;
use vstd::string::StringExecFns;

verus! {

/// One caption line: the position (in seconds) from which it is active, and
/// its text.
#[derive(Debug)]
pub struct Caption {
    pub timestamp: i64,
    pub text: String,
}

/// `i` is the active caption for `position`: its timestamp is at or before
/// the position and every later caption starts after the position.  Ties
/// between equal timestamps resolve toward the later caption, because only
/// the greatest such index is active.
pub open spec fn is_active_index(captions: Seq<Caption>, position: int, i: int) -> bool {
    &&& 0 <= i < captions.len()
    &&& captions[i].timestamp <= position
    &&& forall|j: int| i < j < captions.len() ==> captions[j].timestamp > position
}

/// At most one index is active for a given position.
pub proof fn lemma_active_index_unique(captions: Seq<Caption>, position: int, i: int, j: int)
    requires
        is_active_index(captions, position, i),
        is_active_index(captions, position, j),
    ensures
        i == j,
{
    if i < j {
        assert(captions[j].timestamp > position);
    }
    if j < i {
        assert(captions[i].timestamp > position);
    }
}

/// Finds the active caption for a position: the greatest index whose
/// timestamp is at or before the position.  Answers nothing when there are
/// no captions or the position precedes the first caption.
pub fn active_caption_index(captions: &Vec<Caption>, position: i64) -> (r: Option<usize>)
    ensures
        r matches Some(i) ==> is_active_index(captions@, position as int, i as int),
        r is None ==> (forall|j: int|
            0 <= j < captions@.len() ==> captions@[j].timestamp > position),
{
    let mut i = captions.len();
    while i > 0
        invariant
            i <= captions@.len(),
            forall|j: int| i <= j < captions@.len() ==> captions@[j].timestamp > position,
        decreases i,
    {
        i = i - 1;
        if captions[i].timestamp <= position {
            return Some(i);
        }
    }
    None
}

/// The marker shown once when a track has no captions at all.
pub fn no_captions_marker() -> (m: &'static str)
    ensures
        m@ == "No lyrics available."@,
{
    "No lyrics available."
}

/// The line the display must show for a caption track and a position: the
/// marker when there are no captions; the empty line when the position
/// precedes the first caption; otherwise the text of the active caption.
pub open spec fn line_for(captions: Seq<Caption>, position: int) -> Seq<char> {
    if captions.len() == 0 {
        "No lyrics available."@
    } else if exists|i: int| is_active_index(captions, position, i) {
        captions[choose|i: int| is_active_index(captions, position, i)].text@
    } else {
        Seq::<char>::empty()
    }
}

/// The synchronizer's cache of the last emitted line.  A new line is emitted
/// only when it differs from the cached one, so the display is never asked
/// to redraw the same text twice.
pub struct LyricSync {
    line: String,
}

impl LyricSync {
    /// The last emitted line.
    pub closed spec fn line_spec(&self) -> Seq<char> {
        self.line@
    }

    /// A fresh synchronizer that has emitted nothing yet.
    pub fn new() -> (s: LyricSync)
        ensures
            s.line_spec() == Seq::<char>::empty(),
    {
        LyricSync { line: String::new() }
    }

    /// Recomputes the line for the current position and emits it only when
    /// it differs from the last emitted line; `None` means the display needs
    /// no redraw.
    pub fn update_lyric(&mut self, captions: &Vec<Caption>, position_secs: i64) -> (emitted: Option<
        String,
    >)
        ensures
            final(self).line_spec() == line_for(captions@, position_secs as int),
            (emitted is Some) == (old(self).line_spec() != line_for(
                captions@,
                position_secs as int,
            )),
            emitted matches Some(l) ==> l@ == line_for(captions@, position_secs as int),
    {
        let ghost pos = position_secs as int;
        let new_line: String = if captions.len() == 0 {
            String::from_str(no_captions_marker())
        } else {
            match active_caption_index(captions, position_secs) {
                Some(i) => {
                    proof {
                        let k = choose|k: int| is_active_index(captions@, pos, k);
                        if is_active_index(captions@, pos, k) {
                            lemma_active_index_unique(captions@, pos, i as int, k);
                        }
                    }
                    captions[i].text.clone()
                },
                None => {
                    proof {
                        if exists|k: int| is_active_index(captions@, pos, k) {
                            let k = choose|k: int| is_active_index(captions@, pos, k);
                            assert(captions@[k].timestamp > position_secs);
                        }
                    }
                    String::new()
                },
            }
        };
        if self.line == new_line {
            None
        } else {
            self.line = new_line.clone();
            Some(new_line)
        }
    }
}

} // verus!
