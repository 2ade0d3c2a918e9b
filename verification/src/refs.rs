//! Git references: what a fixture should sit on, and what a working copy sits on.

use vstd::prelude::*;

verus! {

/// The two kinds of git reference a fixture can be pinned to.
#[derive(Clone, Copy, Debug, PartialEq, Eq, Structural)]
pub enum RefKind {
    Tag,
    Branch,
}

impl RefKind {
    /// The word used for this kind in messages.
    pub open spec fn label_text(self) -> Seq<char> {
        match self {
            RefKind::Tag => "tag"@,
            RefKind::Branch => "branch"@,
        }
    }

    /// The word used for this kind in messages: `tag` or `branch`.
    pub fn label(self) -> (r: &'static str)
        ensures
            r@ == self.label_text(),
    {
        match self {
            RefKind::Tag => "tag",
            RefKind::Branch => "branch",
        }
    }
}

/// A target reference as a mathematical value: its kind and its name.
pub enum RefView {
    Tag(Seq<char>),
    Branch(Seq<char>),
}

impl RefView {
    pub open spec fn kind(self) -> RefKind {
        match self {
            RefView::Tag(_) => RefKind::Tag,
            RefView::Branch(_) => RefKind::Branch,
        }
    }

    /// The name git knows the reference by; also its display form.
    pub open spec fn name(self) -> Seq<char> {
        match self {
            RefView::Tag(name) => name,
            RefView::Branch(name) => name,
        }
    }
}

/// The reference a fixture must be checked out at.
///
/// A closed two-case type: the update protocol for a branch and the one for a
/// tag are chosen by matching on it, never by a flag beside a shared string.
#[derive(Clone, Copy, Debug, PartialEq, Eq)]
pub enum FixtureRef<'a> {
    Tag(&'a str),
    Branch(&'a str),
}

impl<'a> View for FixtureRef<'a> {
    type V = RefView;

    open spec fn view(&self) -> RefView {
        match *self {
            FixtureRef::Tag(name) => RefView::Tag(name@),
            FixtureRef::Branch(name) => RefView::Branch(name@),
        }
    }
}

/// The target of a fixture entry: the branch where one is given, else the tag.
pub open spec fn resolved(tag: Seq<char>, branch: Option<Seq<char>>) -> RefView {
    match branch {
        Some(b) => RefView::Branch(b),
        None => RefView::Tag(tag),
    }
}

/// Without a branch the target is the tag, displayed as the tag; with a branch
/// it is the branch, displayed as the branch, whatever the tag.
pub proof fn law_branch_overrides_tag(tag: Seq<char>, branch: Option<Seq<char>>)
    ensures
        branch is None ==> resolved(tag, branch) == RefView::Tag(tag) && resolved(
            tag,
            branch,
        ).name() == tag,
        branch matches Some(b) ==> resolved(tag, branch) == RefView::Branch(b) && resolved(
            tag,
            branch,
        ).name() == b,
{
}

impl<'a> FixtureRef<'a> {
    /// Resolves a fixture entry. A branch, where present, overrides the tag.
    pub fn new(tag: &'a str, branch: Option<&'a str>) -> (r: FixtureRef<'a>)
        ensures
            r@ == resolved(
                tag@,
                match branch {
                    Some(b) => Some(b@),
                    None => None,
                },
            ),
    {
        match branch {
            Some(b) => FixtureRef::Branch(b),
            None => FixtureRef::Tag(tag),
        }
    }

    pub fn kind(&self) -> (r: RefKind)
        ensures
            r == self@.kind(),
    {
        match self {
            FixtureRef::Tag(_) => RefKind::Tag,
            FixtureRef::Branch(_) => RefKind::Branch,
        }
    }

    /// `tag` or `branch`.
    pub fn ref_type(&self) -> (r: &'static str)
        ensures
            r@ == self@.kind().label_text(),
    {
        self.kind().label()
    }

    /// The wrapped name, as git takes it on a command line.
    pub fn name(&self) -> (r: &'a str)
        ensures
            r@ == self@.name(),
    {
        match *self {
            FixtureRef::Tag(name) => name,
            FixtureRef::Branch(name) => name,
        }
    }

    /// The display form: the wrapped name, whatever the kind.
    pub fn to_string(&self) -> (r: String)
        ensures
            r@ == self@.name(),
    {
        String::from_str(self.name())
    }
}

/// Where a working copy was found to sit.
#[derive(Debug, PartialEq, Eq)]
pub struct LocalRefState {
    /// The tag or branch name, or `<unknown>` where neither probe named one.
    pub name: String,
    /// The kind of the probe that named it; `None` where none did.
    pub kind: Option<RefKind>,
}

/// An observed position as a mathematical value.
pub struct LocalRefView {
    pub name: Seq<char>,
    pub kind: Option<RefKind>,
}

impl LocalRefView {
    /// The word for the observed kind in messages.
    pub open spec fn kind_text(self) -> Seq<char> {
        match self.kind {
            Some(kind) => kind.label_text(),
            None => "<unknown>"@,
        }
    }
}

impl View for LocalRefState {
    type V = LocalRefView;

    open spec fn view(&self) -> LocalRefView {
        LocalRefView { name: self.name@, kind: self.kind }
    }
}

impl LocalRefState {
    /// The word for the observed kind in messages: `tag`, `branch` or
    /// `<unknown>`.
    pub fn kind_label(&self) -> (r: &'static str)
        ensures
            r@ == self@.kind_text(),
    {
        match self.kind {
            Some(kind) => kind.label(),
            None => "<unknown>",
        }
    }
}

} // verus!
