//! Which static file answers a request path.

use crate::http::NOT_FOUND;
use crate::text::same_text;
use vstd::prelude::*;

verus! {

/// The file that answers a request path.
#[derive(Debug, Clone, PartialEq)]
pub enum StaticTarget {
    /// The start page, for the site root.
    Start,
    /// The file at the request path itself.
    File(String),
    /// The page that says the path leads nowhere.
    NotFound,
}

/// What a target holds.
pub enum StaticTargetView {
    Start,
    File(Seq<char>),
    NotFound,
}

impl View for StaticTarget {
    type V = StaticTargetView;

    open spec fn view(&self) -> StaticTargetView {
        match self {
            StaticTarget::Start => StaticTargetView::Start,
            StaticTarget::File(path) => StaticTargetView::File(path@),
            StaticTarget::NotFound => StaticTargetView::NotFound,
        }
    }
}

/// A request path as a path below the static root: without its leading
/// slash, if it has one.
pub open spec fn below_root(path: Seq<char>) -> Seq<char> {
    if path.len() > 0 && path[0] == '/' {
        path.subrange(1, path.len() as int)
    } else {
        path
    }
}

/// The target for a request path, given the files below the static root:
/// the start page for the root itself, the file where the path names one,
/// the not-found page otherwise.
pub open spec fn target_for(files: Seq<Seq<char>>, path: Seq<char>) -> StaticTargetView {
    if below_root(path).len() == 0 {
        StaticTargetView::Start
    } else if files.contains(below_root(path)) {
        StaticTargetView::File(path)
    } else {
        StaticTargetView::NotFound
    }
}

/// The status that a target is served with, where the target settles it:
/// 404 for the not-found page. For the other targets the file server
/// decides.
pub open spec fn settled_status(target: StaticTargetView) -> Option<u16> {
    match target {
        StaticTargetView::NotFound => Some(NOT_FOUND),
        _ => None,
    }
}

/// The request path under which a target is served.
pub open spec fn served_path(target: StaticTargetView) -> Seq<char> {
    match target {
        StaticTargetView::Start => "/start.html"@,
        StaticTargetView::File(path) => path,
        StaticTargetView::NotFound => "/404.html"@,
    }
}

/// The files to go by: those that were found, or the not-found page alone
/// where the static root could not be read.
pub open spec fn files_or_fallback(found: Option<Seq<Seq<char>>>) -> Seq<Seq<char>> {
    match found {
        Some(files) => files,
        None => seq!["404.html"@],
    }
}

/// The files to go by, given what reading the static root gave.
pub fn known_files(found: Option<Vec<String>>) -> (files: Vec<String>)
    ensures
        files.deep_view() == files_or_fallback(
            match found {
                Some(list) => Some(list.deep_view()),
                None => None,
            },
        ),
{
    match found {
        Some(list) => list,
        None => {
            let mut files: Vec<String> = Vec::new();
            files.push(String::from_str("404.html"));
            assert(files.deep_view() =~= seq!["404.html"@]);
            files
        },
    }
}

/// The target for a request path, given the files below the static root,
/// each as its path from the root with `/` between the parts.
pub fn resolve(valid_files: &Vec<String>, path: &str) -> (target: StaticTarget)
    ensures
        target@ == target_for(valid_files.deep_view(), path@),
{
    let n: usize = path.unicode_len();
    let relative: &str = if n > 0 && path.get_char(0) == '/' {
        path.substring_char(1, n)
    } else {
        path
    };
    assert(relative@ == below_root(path@));
    if relative.unicode_len() == 0 {
        return StaticTarget::Start;
    }
    let mut i: usize = 0;
    while i < valid_files.len()
        invariant
            i <= valid_files.len(),
            relative@ == below_root(path@),
            relative@.len() > 0,
            forall|k: int| 0 <= k < i ==> valid_files.deep_view()[k] != relative@,
        decreases valid_files.len() - i,
    {
        if same_text(valid_files[i].as_str(), relative) {
            assert(valid_files.deep_view()[i as int] == relative@);
            assert(valid_files.deep_view().contains(relative@));
            return StaticTarget::File(path.to_owned());
        }
        i = i + 1;
    }
    StaticTarget::NotFound
}

impl StaticTarget {
    /// The status that the target is served with, where the target
    /// settles it.
    pub fn settled_status(&self) -> (status: Option<u16>)
        ensures
            status == settled_status(self@),
    {
        match self {
            StaticTarget::NotFound => Some(NOT_FOUND),
            _ => None,
        }
    }

    /// The request path under which the target is served.
    pub fn served_path(&self) -> (path: String)
        ensures
            path@ == served_path(self@),
    {
        match self {
            StaticTarget::Start => String::from_str("/start.html"),
            StaticTarget::File(path) => path.clone(),
            StaticTarget::NotFound => String::from_str("/404.html"),
        }
    }
}

} // verus!
