//! Raw frames of JavaScript (Node) stack traces: their canonical form and
//! their fingerprint.
use crate::fingerprint::{
    be_bytes, joined_bytes, push_all_bytes, push_be_bytes, push_str_bytes, sha512_hex,
    sha512_lower_hex, is_lower_hex_digit,
};
use crate::frames::{
    context_of, extract_context, opt_context_view, opt_view, texts_view, Context, ContextModel,
    Frame,
};
use vstd::prelude::*;
use vstd::utf8::{encode_utf8, encode_utf8_decode_utf8};

verus! {

/// A stack frame as a Node crash payload reports it.
#[derive(Debug, Clone)]
pub struct RawNodeFrame {
    /// Path of the file, relative to the project root.
    pub filename: String,
    /// Name of the function the frame executed in.
    pub function: String,
    pub lineno: Option<u32>,
    pub colno: Option<u32>,
    /// Module name, independent of the file path.
    pub module: Option<String>,
    /// Whether the frame is in the user's own code; false when absent.
    pub in_app: bool,
    /// Text of the line at `lineno`.
    pub context_line: Option<String>,
    /// Lines above `context_line`, nearest first.
    pub pre_context: Vec<String>,
    /// Lines below `context_line`, nearest first.
    pub post_context: Vec<String>,
}

/// The abstract value of a raw frame.
pub struct RawFrameModel {
    pub filename: Seq<char>,
    pub function: Seq<char>,
    pub lineno: Option<u32>,
    pub colno: Option<u32>,
    pub module: Option<Seq<char>>,
    pub in_app: bool,
    pub context_line: Option<Seq<char>>,
    pub pre_context: Seq<Seq<char>>,
    pub post_context: Seq<Seq<char>>,
}

impl View for RawNodeFrame {
    type V = RawFrameModel;

    open spec fn view(&self) -> RawFrameModel {
        RawFrameModel {
            filename: self.filename@,
            function: self.function@,
            lineno: self.lineno,
            colno: self.colno,
            module: opt_view(self.module),
            in_app: self.in_app,
            context_line: opt_view(self.context_line),
            pre_context: texts_view(self.pre_context@),
            post_context: texts_view(self.post_context@),
        }
    }
}

/// The UTF-8 bytes of an optional text; nothing when it is absent.
pub open spec fn opt_bytes(o: Option<Seq<char>>) -> Seq<u8> {
    match o {
        Some(t) => encode_utf8(t),
        None => Seq::empty(),
    }
}

/// An optional text, with an absent one read as empty.
pub open spec fn text_or_empty(o: Option<Seq<char>>) -> Seq<char> {
    match o {
        Some(t) => t,
        None => Seq::empty(),
    }
}

/// The bytes hashed after the context line.
pub open spec fn fingerprint_tail(m: RawFrameModel) -> Seq<u8> {
    encode_utf8(m.filename) + encode_utf8(m.function) + be_bytes(
        match m.lineno {
            Some(n) => n,
            None => 0,
        },
    ) + opt_bytes(m.module) + joined_bytes(m.pre_context) + joined_bytes(m.post_context)
}

/// The bytes a frame's fingerprint hashes: the context line, file name,
/// function name, line number (0 when absent) as four big-endian bytes,
/// module, then every line of `pre_context` and of `post_context`.
/// Absent texts add nothing; `in_app` and `colno` are left out.
pub open spec fn fingerprint_input(m: RawFrameModel) -> Seq<u8> {
    opt_bytes(m.context_line) + fingerprint_tail(m)
}

pub open spec fn fingerprint_of(m: RawFrameModel) -> Seq<char> {
    sha512_hex(fingerprint_input(m))
}

/// The source window of a raw frame.
pub open spec fn frame_context(m: RawFrameModel) -> Option<ContextModel> {
    context_of(m.context_line, m.lineno, m.pre_context, m.post_context)
}

/// `f` is the canonical form of the raw frame `m`.
pub open spec fn is_canonical_of(m: RawFrameModel, f: Frame) -> bool {
    &&& f.raw_id@ == Seq::<char>::empty()
    &&& f.mangled_name@ == m.function
    &&& opt_view(f.resolved_name) == Some(m.function)
    &&& f.line == m.lineno
    &&& f.column.is_none()
    &&& opt_view(f.source) == Some(m.filename)
    &&& f.in_app == m.in_app
    &&& f.lang@ == "javascript"@
    &&& f.resolved
    &&& f.resolve_failure.is_none()
    &&& f.junk_drawer.is_none()
    &&& opt_context_view(f.context) == frame_context(m)
}

/// Borrows the text of an optional string.
fn opt_as_str(o: &Option<String>) -> (r: Option<&str>)
    ensures
        match r {
            Some(t) => opt_view(*o) == Some(t@),
            None => o.is_none(),
        },
{
    match o {
        Some(s) => Some(s.as_str()),
        None => None,
    }
}

impl RawNodeFrame {
    /// The frame's fingerprint: the SHA-512 digest of its content, as
    /// lowercase hex.
    pub fn frame_id(&self) -> (r: String)
        ensures
            r@ == fingerprint_of(self@),
            r@.len() == 128,
            forall|i: int| 0 <= i < r@.len() ==> is_lower_hex_digit(#[trigger] r@[i]),
    {
        let mut bytes: Vec<u8> = Vec::new();
        match &self.context_line {
            Some(c) => push_str_bytes(&mut bytes, c.as_str()),
            None => {},
        }
        push_str_bytes(&mut bytes, self.filename.as_str());
        push_str_bytes(&mut bytes, self.function.as_str());
        let n: u32 = match self.lineno {
            Some(n) => n,
            None => 0,
        };
        push_be_bytes(&mut bytes, n);
        match &self.module {
            Some(m) => push_str_bytes(&mut bytes, m.as_str()),
            None => {},
        }
        push_all_bytes(&mut bytes, &self.pre_context);
        push_all_bytes(&mut bytes, &self.post_context);
        assert(bytes@ =~= fingerprint_input(self@));
        sha512_lower_hex(bytes.as_slice())
    }

    /// The source window around the frame's line, if the frame carries both
    /// the line's text and its number.
    pub fn get_context(&self) -> (r: Option<Context>)
        ensures
            r.is_some() <==> (self.context_line.is_some() && self.lineno.is_some()),
            opt_context_view(r) == frame_context(self@),
    {
        extract_context(
            opt_as_str(&self.context_line),
            self.lineno,
            &self.pre_context,
            &self.post_context,
        )
    }

    /// The canonical frame: the function name is taken as already resolved,
    /// the column is not carried over, and the identity slot is left empty.
    pub fn to_canonical_frame(&self) -> (f: Frame)
        ensures
            is_canonical_of(self@, f),
    {
        Frame {
            raw_id: String::new(),
            mangled_name: self.function.clone(),
            line: self.lineno,
            column: None,
            source: Some(self.filename.clone()),
            in_app: self.in_app,
            resolved_name: Some(self.function.clone()),
            lang: "javascript".to_owned(),
            resolved: true,
            resolve_failure: None,
            junk_drawer: None,
            context: self.get_context(),
        }
    }
}

/// Same as `RawNodeFrame::to_canonical_frame`.
impl From<&RawNodeFrame> for Frame {
    fn from(raw: &RawNodeFrame) -> (f: Frame)
        ensures
            is_canonical_of(raw@, f),
    {
        raw.to_canonical_frame()
    }
}

// A frame holds strings made at run time, which no spec value can stand for:
// the contract of this conversion is the `ensures` of `from` above.
impl vstd::std_specs::convert::FromSpecImpl<&RawNodeFrame> for Frame {
    open spec fn obeys_from_spec() -> bool {
        false
    }

    open spec fn from_spec(raw: &RawNodeFrame) -> Frame {
        arbitrary()
    }
}

/// A fingerprint is a function of the frame's content: frames with equal
/// content have equal fingerprints, in any process.
pub proof fn lemma_fingerprint_deterministic(a: RawNodeFrame, b: RawNodeFrame)
    requires
        a@ == b@,
    ensures
        fingerprint_of(a@) == fingerprint_of(b@),
{
}

/// Frames that differ only in `in_app` and `colno` have equal fingerprints.
pub proof fn lemma_fingerprint_ignores_in_app_and_colno(a: RawNodeFrame, b: RawNodeFrame)
    requires
        (RawFrameModel { in_app: b@.in_app, colno: b@.colno, ..a@ }) == b@,
    ensures
        fingerprint_of(a@) == fingerprint_of(b@),
{
    assert(fingerprint_input(a@) == fingerprint_input(b@));
}

/// Frames that differ only in their context line hash different bytes,
/// unless both context lines are empty or absent. (That different bytes give
/// different digests is what the hash function is chosen for.)
pub proof fn lemma_context_line_changes_hash_input(a: RawNodeFrame, b: RawNodeFrame)
    requires
        (RawFrameModel { context_line: b@.context_line, ..a@ }) == b@,
        text_or_empty(a@.context_line) != text_or_empty(b@.context_line),
    ensures
        fingerprint_input(a@) != fingerprint_input(b@),
{
    let ta = text_or_empty(a@.context_line);
    let tb = text_or_empty(b@.context_line);
    let x = encode_utf8(ta);
    let y = encode_utf8(tb);
    let t = fingerprint_tail(a@);
    assert(encode_utf8(Seq::<char>::empty()) == Seq::<u8>::empty());
    assert(opt_bytes(a@.context_line) == x);
    assert(opt_bytes(b@.context_line) == y);
    assert(fingerprint_tail(b@) == t);
    assert(fingerprint_input(a@) == x + t);
    assert(fingerprint_input(b@) == y + t);
    if x + t == y + t {
        assert((x + t).len() == (y + t).len());
        assert(x =~= (x + t).take(x.len() as int));
        assert(y =~= (y + t).take(y.len() as int));
        encode_utf8_decode_utf8(ta);
        encode_utf8_decode_utf8(tb);
    }
}

} // verus!
