//! Laying out documents, and keeping track of where each part of the output comes from.

use crate::list::{bump, spec_bump};
use crate::text::{Text, rope_string};
use crate::ir::{Loc, Location, Position, Range};
use crate::doc::{Doc, DocT};
use crate::env::{plus, spec_plus};
use pretty::RcDoc;
use std::rc::Rc;
use vstd::prelude::*;

verus! {

/// What a document says: its texts, and its structure. A nested part is indented by the given
/// number of columns.
pub enum DocView {
    Nil,
    Text(Seq<char>),
    Line,
    Hardline,
    Append(Box<DocView>, Box<DocView>),
    Nest(int, Box<DocView>),
    Group(Box<DocView>),
    Annotated(Loc, Box<DocView>),
}

/// What a document says.
pub open spec fn doc_view(d: Doc) -> DocView
    decreases d,
{
    match *d {
        DocT::Nil => DocView::Nil,
        DocT::Text(t) => DocView::Text(t.chars()),
        DocT::Line => DocView::Line,
        DocT::Hardline => DocView::Hardline,
        DocT::Append(a, b) => DocView::Append(Box::new(doc_view(a)), Box::new(doc_view(b))),
        DocT::Nest(a) => DocView::Nest(2, Box::new(doc_view(a))),
        DocT::Group(a) => DocView::Group(Box::new(doc_view(a))),
        DocT::Annotated(loc, a) => DocView::Annotated(loc, Box::new(doc_view(a))),
    }
}

/// A document with its texts written out.
pub enum PlainDoc {
    Nil,
    Text(String),
    Line,
    Hardline,
    Append(Box<PlainDoc>, Box<PlainDoc>),
    Nest(isize, Box<PlainDoc>),
    Group(Box<PlainDoc>),
    Annotated(Loc, Box<PlainDoc>),
}

/// What a document with its texts written out says.
pub open spec fn plain_view(d: PlainDoc) -> DocView
    decreases d,
{
    match d {
        PlainDoc::Nil => DocView::Nil,
        PlainDoc::Text(t) => DocView::Text(t@),
        PlainDoc::Line => DocView::Line,
        PlainDoc::Hardline => DocView::Hardline,
        PlainDoc::Append(a, b) => DocView::Append(Box::new(plain_view(*a)), Box::new(plain_view(*b))),
        PlainDoc::Nest(n, a) => DocView::Nest(n as int, Box::new(plain_view(*a))),
        PlainDoc::Group(a) => DocView::Group(Box::new(plain_view(*a))),
        PlainDoc::Annotated(loc, a) => DocView::Annotated(loc, Box::new(plain_view(*a))),
    }
}

/// The document with its texts written out.
pub fn write_out(d: &Doc) -> (r: PlainDoc)
    ensures
        plain_view(r) == doc_view(*d),
    decreases d,
{
    match &**d {
        DocT::Nil => PlainDoc::Nil,
        DocT::Text(t) => PlainDoc::Text(rope_string(t)),
        DocT::Line => PlainDoc::Line,
        DocT::Hardline => PlainDoc::Hardline,
        DocT::Append(a, b) => PlainDoc::Append(Box::new(write_out(a)), Box::new(write_out(b))),
        DocT::Nest(a) => PlainDoc::Nest(2, Box::new(write_out(a))),
        DocT::Group(a) => PlainDoc::Group(Box::new(write_out(a))),
        DocT::Annotated(loc, a) => PlainDoc::Annotated(loc.clone(), Box::new(write_out(a))),
    }
}

/// What the layout engine does, in order: it writes a text, or enters or leaves a part that a
/// place of the source gave rise to.
pub enum RenderEvent {
    Text(String),
    Enter(Loc),
    Leave,
}

/// What an event does.
pub enum EventView {
    Text(Seq<char>),
    Enter(Loc),
    Leave,
}

/// What an event does.
pub open spec fn event_view(e: RenderEvent) -> EventView {
    match e {
        RenderEvent::Text(t) => EventView::Text(t@),
        RenderEvent::Enter(loc) => EventView::Enter(loc),
        RenderEvent::Leave => EventView::Leave,
    }
}

/// What events do.
pub open spec fn event_views(l: Seq<RenderEvent>) -> Seq<EventView> {
    Seq::new(l.len(), |i: int| event_view(l[i]))
}

/// The layout of a document within a width, as `RcDoc::render_raw` chooses it.
pub uninterp spec fn layout(d: DocView, width: nat) -> Seq<EventView>;

/// A record of what the layout engine does.
pub struct EventLog {
    pub events: Vec<RenderEvent>,
}

impl pretty::Render for EventLog {
    type Error = ();

    fn write_str(&mut self, s: &str) -> Result<usize, ()> {
        self.events.push(RenderEvent::Text(s.to_owned()));
        Ok(s.len())
    }

    fn fail_doc(&self) -> () {
        ()
    }
}

impl<'a> pretty::RenderAnnotated<'a, Loc> for EventLog {
    fn push_annotation(&mut self, loc: &'a Loc) -> Result<(), ()> {
        self.events.push(RenderEvent::Enter(loc.clone()));
        Ok(())
    }

    fn pop_annotation(&mut self) -> Result<(), ()> {
        self.events.push(RenderEvent::Leave);
        Ok(())
    }
}

#[verifier::external_type_specification]
#[verifier::external_body]
#[verifier::reject_recursive_types(A)]
pub struct ExRcDoc<'a, A>(RcDoc<'a, A>);

/// The constructors of `RcDoc`, one for each shape of document. They build what [`lay_out`] hands
/// to the layout engine; nothing is claimed of the opaque document itself.
#[verifier::external_body]
fn lower(d: &PlainDoc) -> (r: RcDoc<'static, Loc>) {
    match d {
        PlainDoc::Nil => RcDoc::nil(),
        PlainDoc::Text(t) => RcDoc::text(t.clone()),
        PlainDoc::Line => RcDoc::line(),
        PlainDoc::Hardline => RcDoc::hardline(),
        PlainDoc::Append(a, b) => lower(a).append(lower(b)),
        PlainDoc::Nest(n, a) => lower(a).nest(*n),
        PlainDoc::Group(a) => lower(a).group(),
        PlainDoc::Annotated(loc, a) => lower(a).annotate(loc.clone()),
    }
}

/// `RcDoc::render_raw`: what it writes, and which parts it enters and leaves, depends on the
/// document and the width alone. The log never fails, so neither does the call.
#[verifier::external_body]
fn lay_out(d: &PlainDoc, width: usize) -> (r: Vec<RenderEvent>)
    ensures
        event_views(r@) == layout(plain_view(*d), width as nat),
{
    let mut log = EventLog { events: Vec::new() };
    let _ = lower(d).render_raw(width, &mut log);
    log.events
}

/// How many bytes a character takes in UTF-8.
pub open spec fn utf8_width(c: char) -> u64 {
    let n = c as u32;
    if n < 0x80 {
        1
    } else if n < 0x800 {
        2
    } else if n < 0x1_0000 {
        3
    } else {
        4
    }
}

/// A place in the output: the lines before it, and the bytes before it on its line.
pub struct Cursor {
    pub line: u64,
    pub character: u64,
}

/// The place after a character.
pub open spec fn after_char(p: Cursor, c: char) -> Cursor {
    if c == '\n' {
        Cursor { line: spec_bump(p.line), character: 0 }
    } else {
        Cursor { line: p.line, character: spec_plus(p.character, utf8_width(c)) }
    }
}

/// The place after a text.
pub open spec fn after_text(p: Cursor, s: Seq<char>) -> Cursor
    decreases s.len(),
{
    if s.len() == 0 {
        p
    } else {
        after_char(after_text(p, s.drop_last()), s.last())
    }
}

/// A count from zero as a number from one, or the largest number where that has no
/// representation.
pub open spec fn from_one(n: u64) -> u32 {
    if n < u32::MAX as u64 {
        (n + 1) as u32
    } else {
        u32::MAX
    }
}

/// The place as a position, counted from one.
pub open spec fn position_of(p: Cursor) -> Position {
    Position { line: from_one(p.line), character: from_one(p.character) }
}

pub type SourceRangeMap = Vec<(Location, Range)>;

/// The output so far: its text, the place at its end, the parts that were left, with the
/// stretches of output that they take, and the parts that were entered and not yet left.
pub ghost struct Output {
    pub text: Seq<char>,
    pub at: Cursor,
    pub ranges: Seq<(Location, Range)>,
    pub open_parts: Seq<(Loc, Position)>,
}

/// Nothing written yet.
pub open spec fn no_output() -> Output {
    Output {
        text: Seq::empty(),
        at: Cursor { line: 0, character: 0 },
        ranges: Seq::empty(),
        open_parts: Seq::empty(),
    }
}

/// The output after an event. Leaving a part that was never entered does nothing.
pub open spec fn after_event(o: Output, e: EventView) -> Output {
    match e {
        EventView::Text(s) => Output { text: o.text + s, at: after_text(o.at, s), ..o },
        EventView::Enter(loc) => Output { open_parts: o.open_parts.push((loc, position_of(o.at))), ..o },
        EventView::Leave => if o.open_parts.len() == 0 {
            o
        } else {
            let (loc, start) = o.open_parts.last();
            Output {
                ranges: o.ranges.push((loc.location, Range { start, end: position_of(o.at) })),
                open_parts: o.open_parts.drop_last(),
                ..o
            }
        },
    }
}

/// The output after events.
pub open spec fn after_events(l: Seq<EventView>) -> Output
    decreases l.len(),
{
    if l.len() == 0 {
        no_output()
    } else {
        after_event(after_events(l.drop_last()), l.last())
    }
}

/// A writer that keeps track of where it is.
pub struct StrWriter {
    pub buffer: String,
    pub at: Cursor,
    pub source_range_map: SourceRangeMap,
    pub annotation_stack: Vec<(Loc, Position)>,
}

/// A copy of the location.
pub fn clone_location(l: &Location) -> (r: Location)
    ensures
        r == *l,
{
    Location { file_name: l.file_name.clone(), range: l.range }
}

impl StrWriter {
    /// What was written.
    pub open spec fn output(&self) -> Output {
        Output {
            text: self.buffer@,
            at: self.at,
            ranges: self.source_range_map@,
            open_parts: self.annotation_stack@,
        }
    }

    /// A writer that wrote nothing.
    pub fn new() -> (r: StrWriter)
        ensures
            r.output() == no_output(),
    {
        let r = StrWriter {
            buffer: String::new(),
            at: Cursor { line: 0, character: 0 },
            source_range_map: Vec::new(),
            annotation_stack: Vec::new(),
        };
        proof {
            assert(r.output().ranges =~= Seq::<(Location, Range)>::empty());
            assert(r.output().open_parts =~= Seq::<(Loc, Position)>::empty());
        }
        r
    }

    /// The position of what comes next, counted from one.
    pub fn cur_pos(&self) -> (r: Position)
        ensures
            r == position_of(self.at),
    {
        Position {
            line: if self.at.line < u32::MAX as u64 { (self.at.line + 1) as u32 } else { u32::MAX },
            character: if self.at.character < u32::MAX as u64 { (self.at.character + 1) as u32 } else { u32::MAX },
        }
    }

    /// Writes a text.
    pub fn write_str(&mut self, s: &str)
        ensures
            final(self).output() == after_event(old(self).output(), EventView::Text(s@)),
    {
        self.buffer.append(s);
        let n: usize = s.unicode_len();
        let mut i: usize = 0;
        let ghost start = self.at;
        proof {
            assert(s@.take(0) =~= Seq::<char>::empty());
        }
        while i < n
            invariant
                i <= n,
                n == s@.len(),
                self.at == after_text(start, s@.take(i as int)),
                self.buffer@ == old(self).buffer@ + s@,
                self.source_range_map@ == old(self).source_range_map@,
                self.annotation_stack@ == old(self).annotation_stack@,
            decreases n - i,
        {
            let c = s.get_char(i);
            proof {
                assert(s@.take(i as int + 1).drop_last() =~= s@.take(i as int));
                assert(s@.take(i as int + 1).last() == c);
            }
            if c == '\n' {
                self.at = Cursor { line: bump(self.at.line), character: 0 };
            } else {
                let code: u32 = c as u32;
                let w: u64 = if code < 0x80 { 1 } else if code < 0x800 { 2 } else if code < 0x1_0000 { 3 } else { 4 };
                self.at = Cursor { line: self.at.line, character: plus(self.at.character, w) };
            }
            i += 1;
        }
        proof {
            assert(s@.take(n as int) =~= s@);
        }
    }

    /// Enters a part.
    pub fn push_annotation(&mut self, loc: &Loc)
        ensures
            final(self).output() == after_event(old(self).output(), EventView::Enter(*loc)),
    {
        let p = self.cur_pos();
        self.annotation_stack.push((loc.clone(), p));
    }

    /// Leaves the part that was entered last.
    pub fn pop_annotation(&mut self)
        ensures
            final(self).output() == after_event(old(self).output(), EventView::Leave),
    {
        let end = self.cur_pos();
        match self.annotation_stack.pop() {
            Some((loc, start)) => {
                self.source_range_map.push((clone_location(&loc.location), Range { start, end }));
            },
            None => {},
        }
    }
}

/// The output of events.
pub fn replay(events: &Vec<RenderEvent>) -> (r: StrWriter)
    ensures
        r.output() == after_events(event_views(events@)),
{
    let mut w = StrWriter::new();
    let mut i: usize = 0;
    proof {
        assert(event_views(events@).take(0) =~= Seq::<EventView>::empty());
    }
    while i < events.len()
        invariant
            i <= events.len(),
            w.output() == after_events(event_views(events@).take(i as int)),
        decreases events.len() - i,
    {
        proof {
            let l = event_views(events@);
            assert(l.take(i as int + 1).drop_last() =~= l.take(i as int));
            assert(l.take(i as int + 1).last() == event_view(events@[i as int]));
        }
        match &events[i] {
            RenderEvent::Text(s) => w.write_str(s.as_str()),
            RenderEvent::Enter(loc) => w.push_annotation(loc),
            RenderEvent::Leave => w.pop_annotation(),
        }
        i += 1;
    }
    proof {
        assert(event_views(events@).take(i as int) =~= event_views(events@));
    }
    w
}

/// The output of a document, laid out within 100 columns.
pub open spec fn rendered(d: Doc) -> Output {
    after_events(layout(doc_view(d), 100))
}

/// Lays a document out within 100 columns.
pub fn render(d: &Doc) -> (r: StrWriter)
    ensures
        r.output() == rendered(*d),
{
    let plain = write_out(d);
    let events = lay_out(&plain, 100);
    replay(&events)
}

} // verus!
