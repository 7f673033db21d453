//! Planning of one file's placement and a model of a whole run.
//!
//! For each enumerated file the plan says whether it is skipped, whether
//! it advances the processed counter, and, when everything succeeds, which
//! folder is created and where the copy lands.  Paths are plain
//! `/`-separated text.

use vstd::prelude::*;
use crate::date::CaptureDate;
use crate::date::chrono_format_ymd;
use crate::date::date_from_text;
use crate::date::date_of_text;
use crate::date::format_ymd;
use crate::meta::exif_datetime_of;
use crate::meta::extracted_date;
use crate::meta::read_exif_datetime;

verus! {

/// The text after the last `/` of a path: the file's base name.
pub open spec fn base_name_spec(path: Seq<char>) -> Seq<char>
    decreases path.len(),
{
    if path.len() == 0 {
        path
    } else if path[path.len() - 1] == '/' {
        Seq::empty()
    } else {
        base_name_spec(path.take(path.len() - 1)) + seq![path[path.len() - 1]]
    }
}

proof fn lemma_base_name_subrange(p: Seq<char>, i: int)
    requires
        0 <= i <= p.len(),
        forall|j: int| i <= j < p.len() ==> p[j] != '/',
        i > 0 ==> p[i - 1] == '/',
    ensures
        base_name_spec(p) == p.subrange(i, p.len() as int),
    decreases p.len(),
{
    if p.len() == 0 {
        assert(base_name_spec(p) =~= p.subrange(0, 0));
    } else if i == p.len() {
        assert(p[p.len() - 1] == '/');
        assert(base_name_spec(p) =~= p.subrange(i, p.len() as int));
    } else {
        assert(p[p.len() - 1] != '/');
        lemma_base_name_subrange(p.take(p.len() - 1), i);
        assert(base_name_spec(p) =~= p.subrange(i, p.len() as int));
    }
}

/// The base name of a `/`-separated path: the text after the last `/`,
/// the whole path when it has none.
pub fn base_name(path: &str) -> (r: String)
    ensures
        r@ == base_name_spec(path@),
{
    let n = path.unicode_len();
    let mut i: usize = n;
    while i > 0 && path.get_char(i - 1) != '/'
        invariant
            0 <= i <= n,
            n == path@.len(),
            forall|j: int| i <= j < n ==> path@[j] != '/',
        decreases i,
    {
        i -= 1;
    }
    proof {
        lemma_base_name_subrange(path@, i as int);
    }
    path.substring_char(i, n).to_owned()
}

/// Joins two path fragments with a `/`.
pub fn join_path(a: &str, b: &str) -> (r: String)
    ensures
        r@ == a@ + "/"@ + b@,
{
    let mut s = String::from_str(a);
    s.append("/");
    s.append(b);
    s
}

/// The folder path and destination path planned for a capture date:
/// `<out_root>/<formatted date>` and, under it, the source's base name.
pub fn plan_copy(date: &CaptureDate, src_path: &str, out_root: &str, mask: &str) -> (r: Option<
    (String, String),
>)
    ensures
        match r {
            Some(p) => chrono_format_ymd(
                date.year as int,
                date.month as int,
                date.day as int,
                mask@,
            ) matches Some(f) && p.0@ == out_root@ + "/"@ + f && p.1@ == p.0@ + "/"@
                + base_name_spec(src_path@),
            None => chrono_format_ymd(
                date.year as int,
                date.month as int,
                date.day as int,
                mask@,
            ) is None,
        },
{
    match format_ymd(date, mask) {
        None => None,
        Some(f) => {
            let folder = join_path(out_root, f.as_str());
            let name = base_name(src_path);
            let dest = join_path(folder.as_str(), name.as_str());
            Some((folder, dest))
        },
    }
}

/// The plan for one enumerated file.
#[derive(Debug, Clone, PartialEq, Eq)]
pub enum FilePlan {
    /// The file could not be read, or its metadata yields no capture-date
    /// text: skipped silently, the processed counter does not move.
    NoDate,
    /// Metadata text was extracted but does not parse as a date: skipped
    /// silently, yet the processed counter advances.
    BadDate,
    /// The date does not render through the mask; placing the file is
    /// impossible.
    BadMask,
    /// The file is placed: the folder to create and the destination path.
    Copy { folder: String, dest: String },
}

impl FilePlan {
    /// Whether this plan advances the processed counter: every file whose
    /// metadata yielded a capture-date text counts, even one whose date
    /// text failed to parse.
    pub fn advances_counter(&self) -> (r: bool)
        ensures
            r == !(self is NoDate),
    {
        match self {
            FilePlan::NoDate => false,
            _ => true,
        }
    }

    /// Whether this plan produces a printed progress line: only a planned
    /// copy does.
    pub fn emits_line(&self) -> (r: bool)
        ensures
            r == (self is Copy),
    {
        match self {
            FilePlan::Copy { .. } => true,
            _ => false,
        }
    }
}

/// The destination path that a file's bytes yield, when every step
/// succeeds: `None` for an unreadable file, failing metadata, an
/// unparseable date or an unformattable mask.
pub open spec fn planned_dest(
    bytes: Option<Seq<u8>>,
    src_path: Seq<char>,
    out_root: Seq<char>,
    mask: Seq<char>,
) -> Option<Seq<char>> {
    match bytes {
        None => None,
        Some(b) => match extracted_date(b) {
            None => None,
            Some(ymd) => match chrono_format_ymd(ymd.0, ymd.1, ymd.2, mask) {
                None => None,
                Some(f) => Some(out_root + "/"@ + f + "/"@ + base_name_spec(src_path)),
            },
        },
    }
}

/// The view of the bytes handed in for one file: `None` when the file
/// could not be read.
pub open spec fn bytes_view(bytes: Option<&[u8]>) -> Option<Seq<u8>> {
    match bytes {
        None => None,
        Some(b) => Some(b@),
    }
}

/// Plans one file: `bytes` holds the file's contents, or `None` when the
/// file could not be read.  The plan follows the file through metadata
/// extraction, date parsing and mask formatting, and pins the planned
/// folder and destination paths.
pub fn plan_file(bytes: Option<&[u8]>, src_path: &str, out_root: &str, mask: &str) -> (r: FilePlan)
    ensures
        match bytes_view(bytes) {
            None => r is NoDate,
            Some(bv) => match exif_datetime_of(bv) {
                None => r is NoDate,
                Some(t) => match date_of_text(t) {
                    None => r is BadDate,
                    Some(ymd) => match chrono_format_ymd(ymd.0, ymd.1, ymd.2, mask@) {
                        None => r is BadMask,
                        Some(f) => (r matches FilePlan::Copy { folder, dest } && folder@ == out_root@
                            + "/"@ + f && dest@ == folder@ + "/"@ + base_name_spec(src_path@)),
                    },
                },
            },
        },
        (r matches FilePlan::Copy { dest, .. } ==> planned_dest(
            bytes_view(bytes),
            src_path@,
            out_root@,
            mask@,
        ) == Some(dest@)),
        !(r is Copy) ==> planned_dest(bytes_view(bytes), src_path@, out_root@, mask@) is None,
{
    match bytes {
        None => FilePlan::NoDate,
        Some(b) => match read_exif_datetime(b) {
            None => FilePlan::NoDate,
            Some(t) => match date_from_text(t.as_str()) {
                None => FilePlan::BadDate,
                Some(date) => match plan_copy(&date, src_path, out_root, mask) {
                    None => FilePlan::BadMask,
                    Some(p) => FilePlan::Copy { folder: p.0, dest: p.1 },
                },
            },
        },
    }
}

} // verus!
