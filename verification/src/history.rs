//! The history section: what it says about an image, and copying, pasting and discarding
//! an edit.
//!
//! The undo stack of an edit is carried as the bytes in which it is stored.
use vstd::prelude::*;

use crate::catalogue::{
    bytes_of, discard_history, load_history, load_saved, save_history, save_params, saved_stack,
    Catalogue,
};
use crate::params::PreviewParams;
use crate::paths::{file_name, name_of};
use crate::text::{decimal, push_decimal};

verus! {

/// A copied edit.
#[derive(Clone)]
pub struct HistoryClipboard {
    /// The path of the image it was copied from.
    pub source: String,
    pub params: PreviewParams,
    /// The undo stack, where there was one.
    pub stack: Option<Vec<u8>>,
}

impl HistoryClipboard {
    /// The undo stack that a paste stores: the one that was copied, and else `seed`.
    pub open spec fn pasted_stack(self, seed: Seq<u8>) -> Seq<u8> {
        match self.stack {
            Some(s) => s@,
            None => seed,
        }
    }

    /// Whether this is the stored edit of an image, with its undo stack if that can be read.
    pub open spec fn is_copy(
        self,
        catalogue: Catalogue,
        path: Seq<char>,
        stack_reads: bool,
    ) -> bool {
        &&& catalogue.saved_edit(path) == Some(self.params)
        &&& self.source@ == path
        &&& match self.stack {
            Some(s) => stack_reads && saved_stack(catalogue, path) == Some(s@),
            None => !(stack_reads && saved_stack(catalogue, path) is Some),
        }
    }

    /// Copies the stored edit of an image: `None` if there is none. `stack_reads` tells
    /// whether the stored undo stack can be read; one that cannot is left behind.
    pub fn from_image(catalogue: &Catalogue, full_path: &str, stack_reads: bool) -> (r: Option<
        HistoryClipboard,
    >)
        requires
            catalogue.wf(),
        ensures
            match r {
                Some(clip) => clip.is_copy(*catalogue, full_path@, stack_reads),
                None => catalogue.saved_edit(full_path@) is None,
            },
            r is Some ==> {
                &&& catalogue.saved_edit(full_path@) == Some(r->0.params)
                &&& r->0.source@ == full_path@
                &&& r->0.stack is Some <==> stack_reads && saved_stack(
                    *catalogue,
                    full_path@,
                ) is Some
                &&& r->0.stack is Some ==> saved_stack(*catalogue, full_path@) == Some(
                    r->0.stack->0@,
                )
            },
    {
        match load_saved(catalogue, full_path) {
            Some(params) => {
                let stack: Option<Vec<u8>> = if stack_reads {
                    load_history(catalogue, full_path)
                } else {
                    None
                };
                Some(HistoryClipboard { source: full_path.to_owned(), params, stack })
            },
            None => None,
        }
    }

    /// Writes the edit onto an image, in place of its own edit and undo stack. `seed` is
    /// the undo stack for an edit that was copied without one. An image that the catalogue
    /// does not know is passed over.
    pub fn apply_to(&self, catalogue: &mut Catalogue, full_path: &str, seed: &Vec<u8>)
        requires
            old(catalogue).wf(),
        ensures
            final(catalogue).wf(),
            final(catalogue).same_but_edits(*old(catalogue)),
            *final(catalogue) == (Catalogue {
                params: final(catalogue).params,
                history: final(catalogue).history,
                ..*old(catalogue)
            }),
            match old(catalogue).image_id(full_path@) {
                Some(id) => {
                    &&& bytes_of(final(catalogue).params@) == bytes_of(
                        old(catalogue).params@,
                    ).insert(id, self.params.encoded())
                    &&& bytes_of(final(catalogue).history@) == bytes_of(
                        old(catalogue).history@,
                    ).insert(id, self.pasted_stack(seed@))
                    &&& self.stack is Some ==> self.pasted_stack(seed@) == self.stack->0@
                    &&& self.stack is None ==> self.pasted_stack(seed@) == seed@
                },
                None => {
                    &&& bytes_of(final(catalogue).params@) == bytes_of(old(catalogue).params@)
                    &&& bytes_of(final(catalogue).history@) == bytes_of(old(catalogue).history@)
                },
            },
    {
        save_params(catalogue, full_path, &self.params);
        assert(catalogue.image_id(full_path@) == old(catalogue).image_id(full_path@));
        match &self.stack {
            Some(s) => save_history(catalogue, full_path, s),
            None => save_history(catalogue, full_path, seed),
        }
    }

    /// The name of the file that the edit was copied from.
    pub fn source_basename(&self) -> (r: String)
        ensures
            r@ == match name_of(self.source@) {
                Some(n) => n,
                None => "another image"@,
            },
    {
        match file_name(self.source.as_str()) {
            Some(n) => n,
            None => "another image".to_owned(),
        }
    }
}

/// A paste replaces both the edit and the undo stack of the image.
pub proof fn law_paste_replaces_the_pair(
    clip: HistoryClipboard,
    seed: Seq<u8>,
    before: Catalogue,
    after: Catalogue,
    path: Seq<char>,
)
    requires
        before.image_id(path) is Some,
        after.same_but_edits(before),
        bytes_of(after.params@) == bytes_of(before.params@).insert(
            before.image_id(path)->0,
            clip.params.encoded(),
        ),
        bytes_of(after.history@) == bytes_of(before.history@).insert(
            before.image_id(path)->0,
            clip.pasted_stack(seed),
        ),
    ensures
        after.saved_edit(path) == Some(clip.params),
        saved_stack(after, path) == Some(clip.pasted_stack(seed)),
{
    crate::catalogue::law_load_undoes_save(before, after, path, clip.params);
    let id = before.image_id(path)->0;
    assert(after.image_id(path) == Some(id));
    assert(bytes_of(after.history@).contains_key(id));
    assert(bytes_of(after.history@)[id] == clip.pasted_stack(seed));
}

/// What the section says about an image. `steps` is the length of its undo stack, where
/// that can be read; an edit without one counts as one step.
pub fn history_readout_text(catalogue: &Catalogue, full_path: &str, steps: Option<usize>) -> (r:
    String)
    requires
        catalogue.wf(),
    ensures
        r@ == if full_path@.len() == 0 {
            "(no image selected)"@
        } else if catalogue.saved_edit(full_path@) is None {
            "no saved edits"@
        } else {
            decimal(
                match steps {
                    Some(n) => n as nat,
                    None => 1,
                },
            ) + "-step edit stack"@
        },
{
    if full_path.is_empty() {
        return "(no image selected)".to_owned();
    }
    match load_saved(catalogue, full_path) {
        None => "no saved edits".to_owned(),
        Some(_) => {
            let n: usize = match steps {
                Some(n) => n,
                None => 1,
            };
            let mut s = String::new();
            push_decimal(&mut s, n as u64);
            s.append("-step edit stack");
            assert(s@ =~= decimal(n as nat) + "-step edit stack"@);
            s
        },
    }
}

/// Which buttons of the section can be pressed.
#[derive(Clone, Copy, Debug, PartialEq, Eq)]
pub struct HistoryButtons {
    pub copy: bool,
    pub paste: bool,
    pub discard: bool,
}

/// Which buttons can be pressed: copying and discarding need an edit, pasting needs a copy.
pub fn history_buttons(
    catalogue: &Catalogue,
    full_path: &str,
    clipboard: &Option<HistoryClipboard>,
) -> (r: HistoryButtons)
    requires
        catalogue.wf(),
    ensures
        r.copy == (catalogue.saved_edit(full_path@) is Some),
        r.discard == r.copy,
        r.paste == (clipboard is Some),
{
    let edited: bool = match load_saved(catalogue, full_path) {
        Some(_) => true,
        None => false,
    };
    let filled: bool = match clipboard {
        Some(_) => true,
        None => false,
    };
    HistoryButtons { copy: edited, paste: filled, discard: edited }
}

/// What pressing a button came to.
#[derive(Clone, Debug, PartialEq)]
pub enum HistoryAction {
    /// Nothing, and nothing is said.
    Nothing,
    /// It was done.
    Done,
    /// Nothing, or what was done, with a line that says so.
    Said(String),
}

impl HistoryAction {
    /// The line that is said.
    pub open spec fn line(self) -> Option<Seq<char>> {
        match self {
            HistoryAction::Said(s) => Some(s@),
            _ => None,
        }
    }
}

/// The copy button: takes the edit of the image that is shown. Without an image nothing
/// happens; without a catalogue, or without an edit, that is said and the copy that was
/// there stays.
pub fn press_copy(
    clipboard: &mut Option<HistoryClipboard>,
    catalogue: &Catalogue,
    full_path: &str,
    db_path: &str,
    stack_reads: bool,
) -> (r: HistoryAction)
    requires
        catalogue.wf(),
    ensures
        full_path@.len() == 0 ==> r is Nothing,
        full_path@.len() > 0 && db_path@.len() == 0 ==> r.line() == Some("No catalogue open"@),
        full_path@.len() > 0 && db_path@.len() > 0 && catalogue.saved_edit(full_path@) is None
            ==> r.line() == Some(
            "Nothing to copy \u{2014} the selected image has no saved edits"@,
        ),
        full_path@.len() > 0 && db_path@.len() > 0 && catalogue.saved_edit(full_path@) is Some
            ==> r is Done,
        r !is Done ==> *final(clipboard) == *old(clipboard),
        r is Done ==> (*final(clipboard) matches Some(clip) && clip.is_copy(
            *catalogue,
            full_path@,
            stack_reads,
        )),
        r is Done ==> (*final(clipboard) matches Some(clip) && {
            &&& catalogue.saved_edit(full_path@) == Some(clip.params)
            &&& clip.source@ == full_path@
            &&& clip.stack is Some <==> stack_reads && saved_stack(*catalogue, full_path@) is Some
            &&& clip.stack is Some ==> saved_stack(*catalogue, full_path@) == Some(clip.stack->0@)
        }),
{
    if full_path.is_empty() {
        return HistoryAction::Nothing;
    }
    if db_path.is_empty() {
        return HistoryAction::Said("No catalogue open".to_owned());
    }
    match HistoryClipboard::from_image(catalogue, full_path, stack_reads) {
        Some(clip) => {
            *clipboard = Some(clip);
            HistoryAction::Done
        },
        None => HistoryAction::Said(
            "Nothing to copy \u{2014} the selected image has no saved edits".to_owned(),
        ),
    }
}

/// The paste button: writes the copied edit onto the image that is shown, and says where
/// it came from. Without an image or a copy nothing happens; without a catalogue that is
/// said.
pub fn press_paste(
    clipboard: &Option<HistoryClipboard>,
    catalogue: &mut Catalogue,
    full_path: &str,
    db_path: &str,
    seed: &Vec<u8>,
) -> (r: HistoryAction)
    requires
        old(catalogue).wf(),
    ensures
        final(catalogue).wf(),
        final(catalogue).same_but_edits(*old(catalogue)),
        *final(catalogue) == (Catalogue {
            params: final(catalogue).params,
            history: final(catalogue).history,
            ..*old(catalogue)
        }),
        full_path@.len() == 0 ==> r is Nothing,
        full_path@.len() > 0 && db_path@.len() == 0 ==> r.line() == Some("No catalogue open"@),
        full_path@.len() > 0 && db_path@.len() > 0 && clipboard is None ==> r is Nothing,
        full_path@.len() == 0 || db_path@.len() == 0 || clipboard is None ==> *final(catalogue)
            == *old(catalogue),
        full_path@.len() > 0 && db_path@.len() > 0 && clipboard is Some ==> {
            &&& r.line() == Some(
                "Pasted edit from "@ + match name_of(clipboard->0.source@) {
                    Some(n) => n,
                    None => "another image"@,
                },
            )
            &&& match old(catalogue).image_id(full_path@) {
                Some(id) => {
                    &&& bytes_of(final(catalogue).params@) == bytes_of(
                        old(catalogue).params@,
                    ).insert(id, clipboard->0.params.encoded())
                    &&& bytes_of(final(catalogue).history@) == bytes_of(
                        old(catalogue).history@,
                    ).insert(id, clipboard->0.pasted_stack(seed@))
                    &&& clipboard->0.stack is Some ==> clipboard->0.pasted_stack(seed@)
                        == clipboard->0.stack->0@
                    &&& clipboard->0.stack is None ==> clipboard->0.pasted_stack(seed@) == seed@
                },
                None => {
                    &&& bytes_of(final(catalogue).params@) == bytes_of(old(catalogue).params@)
                    &&& bytes_of(final(catalogue).history@) == bytes_of(old(catalogue).history@)
                },
            }
        },
{
    if full_path.is_empty() {
        return HistoryAction::Nothing;
    }
    if db_path.is_empty() {
        return HistoryAction::Said("No catalogue open".to_owned());
    }
    match clipboard {
        Some(clip) => {
            clip.apply_to(catalogue, full_path, seed);
            let mut s = "Pasted edit from ".to_owned();
            s.append(clip.source_basename().as_str());
            HistoryAction::Said(s)
        },
        None => HistoryAction::Nothing,
    }
}

/// The discard button, before it asks: `Done` if the question is to be asked. Without an
/// image nothing happens; without a catalogue that is said.
pub fn press_discard(full_path: &str, db_path: &str) -> (r: HistoryAction)
    ensures
        full_path@.len() == 0 ==> r is Nothing,
        full_path@.len() > 0 && db_path@.len() == 0 ==> r.line() == Some("No catalogue open"@),
        full_path@.len() > 0 && db_path@.len() > 0 ==> r is Done,
{
    if full_path.is_empty() {
        HistoryAction::Nothing
    } else if db_path.is_empty() {
        HistoryAction::Said("No catalogue open".to_owned())
    } else {
        HistoryAction::Done
    }
}

/// The answer to the question: the edit and the undo stack are removed, and that is said.
pub fn confirm_discard(catalogue: &mut Catalogue, full_path: &str) -> (r: String)
    requires
        old(catalogue).wf(),
    ensures
        final(catalogue).wf(),
        final(catalogue).same_but_edits(*old(catalogue)),
        *final(catalogue) == (Catalogue {
            params: final(catalogue).params,
            history: final(catalogue).history,
            ..*old(catalogue)
        }),
        r@ == "Discarded all edits"@,
        match old(catalogue).image_id(full_path@) {
            Some(id) => {
                &&& final(catalogue).params@ == old(catalogue).params@.remove(id)
                &&& final(catalogue).history@ == old(catalogue).history@.remove(id)
            },
            None => final(catalogue).params == old(catalogue).params && final(catalogue).history
                == old(catalogue).history,
        },
{
    discard_history(catalogue, full_path);
    "Discarded all edits".to_owned()
}

} // verus!
