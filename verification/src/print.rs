//! The print composer's choices: paper, orientation, page and messages.
use vstd::prelude::*;

use crate::paths::{file_name, file_stem, name_of, stem_of};
use crate::text::{decimal, push_decimal};

verus! {

/// The longest side to which a page image is decoded, in pixels.
pub const PRINT_DECODE_MAX_DIM: usize = 3000;

/// Paper sizes.
#[derive(Clone, Copy, Debug, PartialEq, Eq, Structural)]
pub enum PaperSize {
    A4,
    Letter,
    Photo10x15,
    Photo13x18,
}

impl PaperSize {
    /// All sizes, in the order of the paper list.
    pub const ALL: [PaperSize; 4] = [
        PaperSize::A4,
        PaperSize::Letter,
        PaperSize::Photo10x15,
        PaperSize::Photo13x18,
    ];

    /// The place in the paper list.
    pub open spec fn place(self) -> int {
        match self {
            PaperSize::A4 => 0,
            PaperSize::Letter => 1,
            PaperSize::Photo10x15 => 2,
            PaperSize::Photo13x18 => 3,
        }
    }

    /// The label in the paper list.
    pub fn label(self) -> (r: &'static str)
        ensures
            r@ == match self {
                PaperSize::A4 => "A4 (210 × 297 mm)"@,
                PaperSize::Letter => "US Letter (8.5 × 11 in)"@,
                PaperSize::Photo10x15 => "Photo 10 × 15 cm"@,
                PaperSize::Photo13x18 => "Photo 13 × 18 cm"@,
            },
    {
        match self {
            PaperSize::A4 => "A4 (210 × 297 mm)",
            PaperSize::Letter => "US Letter (8.5 × 11 in)",
            PaperSize::Photo10x15 => "Photo 10 × 15 cm",
            PaperSize::Photo13x18 => "Photo 13 × 18 cm",
        }
    }

    /// The size at a place of the paper list; the first one for a place past its end.
    pub fn from_index(i: u32) -> (r: PaperSize)
        ensures
            i < 4 ==> r.place() == i,
            i < 4 ==> r == PaperSize::ALL@[i as int],
            i == 1 ==> r == PaperSize::Letter,
            i == 2 ==> r == PaperSize::Photo10x15,
            i == 3 ==> r == PaperSize::Photo13x18,
            i == 0 ==> r == PaperSize::A4,
            i >= 4 ==> r == PaperSize::A4,
    {
        match i {
            1 => PaperSize::Letter,
            2 => PaperSize::Photo10x15,
            3 => PaperSize::Photo13x18,
            _ => PaperSize::A4,
        }
    }
}

/// The paper list holds each size at its place.
pub proof fn law_paper_list(p: PaperSize)
    ensures
        0 <= p.place() < 4,
        PaperSize::ALL@[p.place()] == p,
{
}

/// Page orientations.
#[derive(Clone, Copy, Debug, PartialEq, Eq, Structural)]
pub enum Orientation {
    Portrait,
    Landscape,
}

impl Orientation {
    /// Both orientations, in the order of the orientation list.
    pub const ALL: [Orientation; 2] = [Orientation::Portrait, Orientation::Landscape];

    /// The label in the orientation list.
    pub fn label(self) -> (r: &'static str)
        ensures
            r@ == match self {
                Orientation::Portrait => "Portrait"@,
                Orientation::Landscape => "Landscape"@,
            },
    {
        match self {
            Orientation::Portrait => "Portrait",
            Orientation::Landscape => "Landscape",
        }
    }

    /// The orientation at a place of the list; portrait for a place past its end.
    pub fn from_index(i: u32) -> (r: Orientation)
        ensures
            r == if i == 1 {
                Orientation::Landscape
            } else {
                Orientation::Portrait
            },
    {
        match i {
            1 => Orientation::Landscape,
            _ => Orientation::Portrait,
        }
    }
}

/// The sides of a page: those of the paper, turned for landscape.
pub fn oriented<T>(width: T, height: T, orient: Orientation) -> (r: (T, T))
    ensures
        r == if orient == Orientation::Landscape {
            (height, width)
        } else {
            (width, height)
        },
{
    match orient {
        Orientation::Portrait => (width, height),
        Orientation::Landscape => (height, width),
    }
}

/// The page that a page number stands for, out of `n` pages: numbers count from one, and
/// one past the end stands for the last page.
pub fn page_index(number: usize, n: usize) -> (r: usize)
    ensures
        n == 0 || number == 0 ==> r == 0,
        n > 0 && 1 <= number <= n ==> r == number - 1,
        n > 0 && number > n ==> r == n - 1,
{
    let i: usize = if number == 0 { 0 } else { number - 1 };
    let last: usize = if n == 0 { 0 } else { n - 1 };
    if i < last {
        i
    } else {
        last
    }
}

/// The name proposed for a PDF: the stem of the first image.
pub fn default_pdf_name(paths: &[String]) -> (r: String)
    ensures
        r@ == if paths@.len() > 0 && name_of(paths@[0]@) is Some {
            stem_of(name_of(paths@[0]@)->0) + ".pdf"@
        } else {
            "print.pdf"@
        },
{
    if paths.len() > 0 {
        match file_stem(paths[0].as_str()) {
            Some(stem) => {
                let mut s = stem;
                s.append(".pdf");
                return s;
            },
            None => {},
        }
    }
    "print.pdf".to_owned()
}

/// The name of a file as messages show it: the bare name, or the whole path if it has
/// none.
pub open spec fn display_name(path: Seq<char>) -> Seq<char> {
    match name_of(path) {
        Some(n) => n,
        None => path,
    }
}

/// The name of a file as messages show it.
pub fn file_display_name(path: &str) -> (r: String)
    ensures
        r@ == display_name(path@),
        name_of(path@) is Some ==> r@ == name_of(path@)->0,
        name_of(path@) is None ==> r@ == path@,
{
    match file_name(path) {
        Some(n) => n,
        None => path.to_owned(),
    }
}

/// What asking for a page comes to.
#[derive(Debug)]
pub enum PageRequest {
    /// There is no such page.
    Ignore,
    /// The page is decoded already.
    Redraw,
    /// The page is to be decoded, with this line shown meanwhile.
    Decode { status: String },
}

/// Decides what to do about page `idx`. `decoded` tells of each page whether it is
/// decoded.
pub fn request_page(paths: &Vec<String>, decoded: &Vec<bool>, idx: usize) -> (r: PageRequest)
    requires
        decoded@.len() == paths@.len(),
    ensures
        r is Ignore <==> idx >= paths@.len(),
        r is Redraw <==> idx < paths@.len() && decoded@[idx as int],
        r matches PageRequest::Decode { status } ==> status@ == "Decoding "@ + display_name(
            paths@[idx as int]@,
        ) + "…"@,
{
    if idx >= paths.len() {
        return PageRequest::Ignore;
    }
    if decoded[idx] {
        return PageRequest::Redraw;
    }
    let mut status = "Decoding ".to_owned();
    status.append(file_display_name(paths[idx].as_str()).as_str());
    status.append("…");
    PageRequest::Decode { status }
}

/// The line after a page was decoded, or could not be.
pub fn decode_status(path: &str, ok: bool) -> (r: String)
    ensures
        r@ == if ok {
            Seq::<char>::empty()
        } else {
            "No preview available for "@ + display_name(path@)
        },
{
    if ok {
        return String::new();
    }
    let mut s = "No preview available for ".to_owned();
    s.append(file_display_name(path).as_str());
    s
}

/// The line after an export. `drawn` pages could be decoded and `failed` could not;
/// `error` says why the export itself did not succeed.
pub open spec fn export_line(
    drawn: nat,
    failed: nat,
    dest: Seq<char>,
    error: Option<Seq<char>>,
) -> Seq<char> {
    if drawn == 0 {
        "Export failed: none of the images could be decoded."@
    } else {
        match error {
            Some(e) => "Export failed: "@ + e,
            None => if failed == 0 {
                "Exported "@ + decimal(drawn) + " page(s) to "@ + dest
            } else {
                "Exported "@ + decimal(drawn) + " of "@ + decimal(drawn + failed) + " page(s) ("@
                    + decimal(failed) + " failed) to "@ + dest
            },
        }
    }
}

/// The line after an export.
pub fn export_message(drawn: u32, failed: u32, dest: &str, error: Option<&str>) -> (r: String)
    ensures
        r@ == export_line(
            drawn as nat,
            failed as nat,
            dest@,
            match error {
                Some(e) => Some(e@),
                None => None,
            },
        ),
        drawn == 0 ==> r@ == "Export failed: none of the images could be decoded."@,
        drawn > 0 && error is Some ==> r@ == "Export failed: "@ + error->0@,
        drawn > 0 && error is None && failed == 0 ==> r@ == "Exported "@ + decimal(drawn as nat)
            + " page(s) to "@ + dest@,
        drawn > 0 && error is None && failed > 0 ==> r@ == "Exported "@ + decimal(drawn as nat)
            + " of "@ + decimal((drawn + failed) as nat) + " page(s) ("@ + decimal(failed as nat)
            + " failed) to "@ + dest@,
{
    if drawn == 0 {
        return "Export failed: none of the images could be decoded.".to_owned();
    }
    match error {
        Some(e) => {
            let mut s = "Export failed: ".to_owned();
            s.append(e);
            return s;
        },
        None => {},
    }
    let mut s = "Exported ".to_owned();
    push_decimal(&mut s, drawn as u64);
    if failed == 0 {
        s.append(" page(s) to ");
    } else {
        s.append(" of ");
        push_decimal(&mut s, drawn as u64 + failed as u64);
        s.append(" page(s) (");
        push_decimal(&mut s, failed as u64);
        s.append(" failed) to ");
    }
    s.append(dest);
    s
}

/// The lists that are offered: portrait before landscape, and the papers in their order.
pub proof fn law_offered_pages()
    ensures
        Orientation::ALL@ == seq![Orientation::Portrait, Orientation::Landscape],
        PaperSize::ALL@ == seq![
            PaperSize::A4,
            PaperSize::Letter,
            PaperSize::Photo10x15,
            PaperSize::Photo13x18,
        ],
{
    assert(Orientation::ALL@ =~= seq![Orientation::Portrait, Orientation::Landscape]);
    assert(PaperSize::ALL@ =~= seq![
        PaperSize::A4,
        PaperSize::Letter,
        PaperSize::Photo10x15,
        PaperSize::Photo13x18,
    ]);
}

} // verus!
