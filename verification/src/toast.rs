//! Notifications that the launcher shows to the user.

use vstd::prelude::*;
use crate::text::{push_char, same_text, string_views};

verus! {

/// How serious a notification is.
#[derive(Clone, Copy, Debug, PartialEq, Eq, Structural)]
pub enum OpenMCToastKind {
    Info,
    Warn,
    Error,
    Success,
}

/// The word that stands for a kind inside a notification's text.
pub open spec fn kind_label(kind: OpenMCToastKind) -> Seq<char> {
    match kind {
        OpenMCToastKind::Info => "info"@,
        OpenMCToastKind::Warn => "warn"@,
        OpenMCToastKind::Error => "error"@,
        OpenMCToastKind::Success => "success"@,
    }
}

/// The kind that a word stands for; any word but the first three means success.
pub open spec fn kind_of_label(word: Seq<char>) -> OpenMCToastKind {
    if word == "info"@ {
        OpenMCToastKind::Info
    } else if word == "warn"@ {
        OpenMCToastKind::Warn
    } else if word == "error"@ {
        OpenMCToastKind::Error
    } else {
        OpenMCToastKind::Success
    }
}

impl OpenMCToastKind {
    /// The word that stands for the kind.
    pub fn to_string(&self) -> (r: String)
        ensures
            r@ == kind_label(*self),
    {
        match self {
            OpenMCToastKind::Info => String::from_str("info"),
            OpenMCToastKind::Warn => String::from_str("warn"),
            OpenMCToastKind::Error => String::from_str("error"),
            OpenMCToastKind::Success => String::from_str("success"),
        }
    }

    /// The kind that a word stands for.
    pub fn parse(word: &str) -> (r: Self)
        ensures
            r == kind_of_label(word@),
    {
        if same_text(word, "info") {
            OpenMCToastKind::Info
        } else if same_text(word, "warn") {
            OpenMCToastKind::Warn
        } else if same_text(word, "error") {
            OpenMCToastKind::Error
        } else {
            OpenMCToastKind::Success
        }
    }
}

impl From<String> for OpenMCToastKind {
    fn from(v: String) -> (r: Self) {
        OpenMCToastKind::parse(v.as_str())
    }
}

impl vstd::std_specs::convert::FromSpecImpl<String> for OpenMCToastKind {
    open spec fn obeys_from_spec() -> bool {
        true
    }

    open spec fn from_spec(v: String) -> Self {
        kind_of_label(v@)
    }
}

/// Every kind is read back from its own word.
pub proof fn lemma_kind_label_roundtrip(kind: OpenMCToastKind)
    ensures
        kind_of_label(kind_label(kind)) == kind,
{
    reveal_strlit("info");
    reveal_strlit("warn");
    reveal_strlit("error");
    reveal_strlit("success");
    assert("info"@[0] == 'i' && "warn"@[0] == 'w' && "error"@[0] == 'e' && "success"@[0] == 's');
}

/// A notification: its kind, a title and a description.
#[derive(Debug, PartialEq, Eq)]
pub struct Toast {
    pub kind: OpenMCToastKind,
    pub title: String,
    pub desc: String,
}

/// What a [`Toast`] stands for.
pub struct ToastView {
    pub kind: OpenMCToastKind,
    pub title: Seq<char>,
    pub desc: Seq<char>,
}

impl View for Toast {
    type V = ToastView;

    open spec fn view(&self) -> ToastView {
        ToastView { kind: self.kind, title: self.title@, desc: self.desc@ }
    }
}

/// What an optional notification stands for.
pub open spec fn optional_toast_view(toast: Option<Toast>) -> Option<ToastView> {
    match toast {
        Some(t) => Some(t@),
        None => None,
    }
}

/// The views of a list of notifications, in order.
pub open spec fn toast_views(list: Seq<Toast>) -> Seq<ToastView> {
    Seq::new(list.len(), |i: int| list[i]@)
}

/// The single line that carries a notification: kind, title and description
/// with a bar between them.
pub open spec fn toast_line(t: ToastView) -> Seq<char> {
    kind_label(t.kind) + seq!['|'] + t.title + seq!['|'] + t.desc
}

/// The fields of a line: the stretches of text that its bars part, in order.
/// A line without a bar is one field.
pub open spec fn bar_fields(s: Seq<char>) -> Seq<Seq<char>>
    decreases s.len(),
{
    if s.len() == 0 {
        seq![Seq::<char>::empty()]
    } else {
        let init = bar_fields(s.drop_last());
        if s.last() == '|' {
            init.push(Seq::<char>::empty())
        } else {
            init.drop_last().push(init.last().push(s.last()))
        }
    }
}

/// The notification that a line carries: its first three fields are the kind,
/// the title and the description. A line of fewer fields carries none.
pub open spec fn toast_of_line(s: Seq<char>) -> Option<ToastView> {
    let fields = bar_fields(s);
    if fields.len() >= 3 {
        Some(ToastView { kind: kind_of_label(fields[0]), title: fields[1], desc: fields[2] })
    } else {
        None
    }
}

/// Whether a text holds no bar.
pub open spec fn bar_free(s: Seq<char>) -> bool {
    forall|i: int| 0 <= i < s.len() ==> s[i] != '|'
}

impl Toast {
    /// Reads a notification from the line that carries it.
    pub fn parse(line: &str) -> (r: Option<Toast>)
        ensures
            optional_toast_view(r) == toast_of_line(line@),
    {
        let mut done: Vec<String> = Vec::new();
        let mut current = String::new();
        for c in it: line.chars()
            invariant
                it.seq() == line@,
                string_views(done@).push(current@) == bar_fields(
                    line@.subrange(0, it.index() as int),
                ),
        {
            let ghost more = line@.subrange(0, it.index() + 1);
            assert(more.drop_last() =~= line@.subrange(0, it.index() as int));
            if c == '|' {
                done.push(current);
                current = String::new();
            } else {
                push_char(&mut current, c);
            }
        }
        assert(line@.subrange(0, line@.len() as int) =~= line@);
        done.push(current);
        if done.len() >= 3 {
            Some(
                Toast {
                    kind: OpenMCToastKind::parse(done[0].as_str()),
                    title: done[1].clone(),
                    desc: done[2].clone(),
                },
            )
        } else {
            None
        }
    }

    /// A notification of the given kind.
    pub fn new(kind: OpenMCToastKind, title: &str, desc: &str) -> (r: Self)
        ensures
            r@ == (ToastView { kind, title: title@, desc: desc@ }),
    {
        Toast { kind, title: String::from_str(title), desc: String::from_str(desc) }
    }

    /// The single line that carries the notification.
    pub fn text(&self) -> (r: String)
        ensures
            r@ == toast_line(self@),
    {
        proof {
            reveal_strlit("|");
        }
        self.kind.to_string().concat("|").concat(self.title.as_str()).concat("|").concat(
            self.desc.as_str(),
        )
    }
}

/// A line always has a field.
pub proof fn lemma_bar_fields_nonempty(s: Seq<char>)
    ensures
        bar_fields(s).len() >= 1,
    decreases s.len(),
{
    if s.len() > 0 {
        lemma_bar_fields_nonempty(s.drop_last());
    }
}

/// Text without a bar, put behind a line, lengthens the line's last field.
pub proof fn lemma_bar_fields_append(s: Seq<char>, tail: Seq<char>)
    requires
        bar_free(tail),
    ensures
        bar_fields(s).len() >= 1,
        bar_fields(s + tail) == bar_fields(s).drop_last().push(bar_fields(s).last() + tail),
    decreases tail.len(),
{
    lemma_bar_fields_nonempty(s);
    if tail.len() > 0 {
        let shorter = tail.drop_last();
        lemma_bar_fields_append(s, shorter);
        assert((s + tail).drop_last() =~= s + shorter);
        assert((bar_fields(s).last() + shorter).push(tail.last()) =~= bar_fields(s).last() + tail);
    }
}

/// A bar behind a line opens a new, empty field.
pub proof fn lemma_bar_fields_bar(s: Seq<char>)
    ensures
        bar_fields(s + seq!['|']) == bar_fields(s).push(Seq::<char>::empty()),
{
    assert((s + seq!['|']).drop_last() =~= s);
}

/// A notification whose title and description hold no bar is read back from
/// the line that carries it.
pub proof fn lemma_toast_line_roundtrip(t: ToastView)
    requires
        bar_free(t.title),
        bar_free(t.desc),
    ensures
        toast_of_line(toast_line(t)) == Some(t),
{
    let label = kind_label(t.kind);
    let none = Seq::<char>::empty();
    reveal_strlit("info");
    reveal_strlit("warn");
    reveal_strlit("error");
    reveal_strlit("success");
    lemma_kind_label_roundtrip(t.kind);
    let s0 = none + label;
    lemma_bar_fields_append(none, label);
    assert(bar_fields(s0) =~= seq![label]);
    let s1 = s0 + seq!['|'];
    lemma_bar_fields_bar(s0);
    let s2 = s1 + t.title;
    lemma_bar_fields_append(s1, t.title);
    assert(bar_fields(s2) =~= seq![label, t.title]);
    let s3 = s2 + seq!['|'];
    lemma_bar_fields_bar(s2);
    lemma_bar_fields_append(s3, t.desc);
}

} // verus!
