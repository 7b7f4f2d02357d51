//! Data for the status line: the current buffer's title and its
//! version-control status.
use crate::git::FileData;
use crate::status::label_spec;
use vstd::prelude::*;
use vstd::string::StringExecFns;

verus! {

/// Text style of a status line segment.
#[derive(Clone, Copy, Debug, PartialEq, Eq, Structural)]
pub enum Style {
    Default,
    Bold,
}

/// Colour scheme of a status line segment.
#[derive(Clone, Copy, Debug, PartialEq, Eq, Structural)]
pub enum Colors {
    Default,
    Focused,
}

/// One segment of the status line.
pub struct StatusLineData {
    pub content: String,
    pub style: Style,
    pub colors: Colors,
}

/// A buffer path as a status line title: the path after one space.
pub fn path_as_title(path: &str) -> (r: String)
    ensures
        r@ == seq![' '] + path@,
{
    let title = String::from_str(" ");
    proof {
        reveal_strlit(" ");
    }
    title.concat(path)
}

/// The title segment of the current buffer: its path, marked with an
/// asterisk and emboldened where the buffer has unsaved changes; empty
/// where the buffer has no path.
pub fn buffer_title_line_data(path: Option<&str>, modified: bool) -> (r: StatusLineData)
    ensures
        r.colors == Colors::Focused,
        match path {
            Some(p) => if modified {
                r.content@ == seq![' '] + p@ + seq!['*'] && r.style == Style::Bold
            } else {
                r.content@ == seq![' '] + p@ && r.style == Style::Default
            },
            None => r.content@ == Seq::<char>::empty() && r.style == Style::Default,
        },
{
    let (content, style) = match path {
        Some(p) => {
            if modified {
                let title = path_as_title(p);
                proof {
                    reveal_strlit("*");
                }
                (title.concat("*"), Style::Bold)
            } else {
                (path_as_title(p), Style::Default)
            }
        },
        None => (String::new(), Style::Default),
    };
    StatusLineData { content, style, colors: Colors::Focused }
}

/// The version-control segment: the file's status label in brackets, or
/// empty where the file has no status.
pub fn git_status_line_data(data: &Option<FileData>) -> (r: StatusLineData)
    ensures
        r.style == Style::Default,
        r.colors == Colors::Focused,
        match data {
            Some(d) => r.content@ == seq!['['] + label_spec(d.spec_status()) + seq![']'],
            None => r.content@ == Seq::<char>::empty(),
        },
{
    let content = match data {
        Some(d) => {
            let label = d.status().to_string();
            proof {
                reveal_strlit("[");
                reveal_strlit("]");
            }
            String::from_str("[").concat(label.as_str()).concat("]")
        },
        None => String::new(),
    };
    StatusLineData { content, style: Style::Default, colors: Colors::Focused }
}

} // verus!
