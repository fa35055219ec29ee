use vstd::prelude::*;
use vstd::utf8::encode_utf8;

use crate::error::Error;
use crate::filter::{optional, Filter};
use crate::geometry::{Point, Rect};
use crate::server::{Security, Server};
use crate::signing::{base64_url, encode_base64_url, hmac_sha1, hmac_sha1_of};
use crate::text::{join, owned, push_joined, push_str, views};
use crate::uri::{parse_url, url_cannot_be_a_base, url_parses};

verus! {

/// Where cropping happens when width has to be removed.
#[derive(Debug, Clone, Copy, PartialEq, Eq, Hash)]
pub enum HAlignment {
    Left,
    Center,
    Right,
}

impl HAlignment {
    pub open spec fn text(self) -> Seq<char> {
        match self {
            HAlignment::Left => "left"@,
            HAlignment::Center => "center"@,
            HAlignment::Right => "right"@,
        }
    }

    pub fn as_str(&self) -> (r: &'static str)
        ensures
            r@ == self.text(),
    {
        match self {
            HAlignment::Left => "left",
            HAlignment::Center => "center",
            HAlignment::Right => "right",
        }
    }
}

/// Where cropping happens when height has to be removed.
#[derive(Debug, Clone, Copy, PartialEq, Eq, Hash)]
pub enum VAlignment {
    Top,
    Middle,
    Bottom,
}

impl VAlignment {
    pub open spec fn text(self) -> Seq<char> {
        match self {
            VAlignment::Top => "top"@,
            VAlignment::Middle => "middle"@,
            VAlignment::Bottom => "bottom"@,
        }
    }

    pub fn as_str(&self) -> (r: &'static str)
        ensures
            r@ == self.text(),
    {
        match self {
            VAlignment::Top => "top",
            VAlignment::Middle => "middle",
            VAlignment::Bottom => "bottom",
        }
    }
}

/// Which corner's pixel color decides what surrounding space is trimmed.
#[derive(Debug, Clone, Copy, PartialEq, Eq, Hash)]
pub enum Trim {
    TopLeft,
    BottomRight,
}

impl Trim {
    pub open spec fn text(self) -> Seq<char> {
        match self {
            Trim::TopLeft => "trim:top-left"@,
            Trim::BottomRight => "trim:bottom-right"@,
        }
    }

    pub fn as_str(&self) -> (r: &'static str)
        ensures
            r@ == self.text(),
    {
        match self {
            Trim::TopLeft => "trim:top-left",
            Trim::BottomRight => "trim:bottom-right",
        }
    }
}

impl Default for Trim {
    fn default() -> (r: Trim)
        ensures
            r == Trim::TopLeft,
    {
        Trim::TopLeft
    }
}

/// How the image is fitted into the requested size instead of being cropped.
#[derive(Debug, Clone, Copy, PartialEq, Eq, Hash)]
pub enum FitIn {
    Default,
    Adaptive,
    Full,
}

impl FitIn {
    pub open spec fn text(self) -> Seq<char> {
        match self {
            FitIn::Default => "fit-in"@,
            FitIn::Adaptive => "adaptive-fit-in"@,
            FitIn::Full => "full-fit-in"@,
        }
    }

    pub fn as_str(&self) -> (r: &'static str)
        ensures
            r@ == self.text(),
    {
        match self {
            FitIn::Default => "fit-in",
            FitIn::Adaptive => "adaptive-fit-in",
            FitIn::Full => "full-fit-in",
        }
    }
}

impl Default for FitIn {
    fn default() -> (r: FitIn)
        ensures
            r == FitIn::Default,
    {
        FitIn::Default
    }
}

/// What the service answers with instead of the image.
#[derive(Debug, Clone, Copy, PartialEq, Eq, Hash)]
pub enum ResponseMode {
    /// The operations that would be performed, as JSON.
    Metadata,
    /// The image with its focal points drawn.
    Debug,
}

impl ResponseMode {
    pub open spec fn text(self) -> Seq<char> {
        match self {
            ResponseMode::Metadata => "meta"@,
            ResponseMode::Debug => "debug"@,
        }
    }

    pub fn as_str(&self) -> (r: &'static str)
        ensures
            r@ == self.text(),
    {
        match self {
            ResponseMode::Metadata => "meta",
            ResponseMode::Debug => "debug",
        }
    }
}

/// The segment of a list of filters: none for an empty list, otherwise
/// `filters:` followed by each filter's encoding, joined by `:`.
pub open spec fn filters_segment(filters: Seq<Filter>) -> Option<Seq<char>> {
    if filters.len() == 0 {
        None
    } else {
        Some("filters:"@ + join(filters.map_values(|f: Filter| f.text()), ":"@))
    }
}

/// The entries that are set, in order.
pub open spec fn present(slots: Seq<Option<Seq<char>>>) -> Seq<Seq<char>>
    decreases slots.len(),
{
    if slots.len() == 0 {
        Seq::empty()
    } else {
        present(slots.drop_last()) + optional(slots.last())
    }
}

/// What a list of optional strings holds, as optional character sequences.
pub open spec fn opt_views(v: Seq<Option<String>>) -> Seq<Option<Seq<char>>> {
    v.map_values(
        |o: Option<String>|
            match o {
                Some(s) => Some(s@),
                None => None,
            },
    )
}

/// The signature segment for `path`: `unsafe` without a key; with one, the
/// URL-safe base64 of the HMAC-SHA1 tag over the UTF-8 bytes of `path`.
pub open spec fn signature_text(security: Security, path: Seq<char>) -> Seq<char> {
    match security {
        Security::Unsafe => "unsafe"@,
        Security::Hmac(key) => base64_url(hmac_sha1_of(encode_utf8(key@), encode_utf8(path))),
    }
}

/// A set of transformation options for the images of one server.
/// An option that is not set is left out of the path.
#[derive(Debug, Clone, PartialEq)]
pub struct Endpoint {
    pub server: Server,
    pub response: Option<ResponseMode>,
    pub trim: Option<Trim>,
    pub crop: Option<Rect>,
    pub fit_in: Option<FitIn>,
    pub resize: Option<Point>,
    pub h_align: Option<HAlignment>,
    pub v_align: Option<VAlignment>,
    pub filters: Vec<Filter>,
    pub smart: bool,
}

impl Endpoint {
    /// Whether this is the endpoint on `server` with no option set.
    pub open spec fn is_bare_on(self, server: Server) -> bool {
        &&& self.server == server
        &&& self.response is None
        &&& self.trim is None
        &&& self.crop is None
        &&& self.fit_in is None
        &&& self.resize is None
        &&& self.h_align is None
        &&& self.v_align is None
        &&& self.filters@.len() == 0
        &&& !self.smart
    }

    /// The segment of each option, in the fixed order of the path; `None`
    /// where the option is not set.
    pub open spec fn slots(self) -> Seq<Option<Seq<char>>> {
        seq![
            match self.response {
                Some(m) => Some(m.text()),
                None => None,
            },
            match self.trim {
                Some(t) => Some(t.text()),
                None => None,
            },
            match self.crop {
                Some(c) => Some(c.text()),
                None => None,
            },
            match self.fit_in {
                Some(f) => Some(f.text()),
                None => None,
            },
            match self.resize {
                Some(p) => Some(p.text()),
                None => None,
            },
            match self.h_align {
                Some(h) => Some(h.text()),
                None => None,
            },
            match self.v_align {
                Some(v) => Some(v.text()),
                None => None,
            },
            if self.smart {
                Some("smart"@)
            } else {
                None
            },
            filters_segment(self.filters@),
        ]
    }

    /// Whether `self` is `other` with some options unset: each option of
    /// `self` is that of `other`, or unset.
    pub open spec fn unsets_options_of(self, other: Endpoint) -> bool {
        &&& self.response == other.response || self.response is None
        &&& self.trim == other.trim || self.trim is None
        &&& self.crop == other.crop || self.crop is None
        &&& self.fit_in == other.fit_in || self.fit_in is None
        &&& self.resize == other.resize || self.resize is None
        &&& self.h_align == other.h_align || self.h_align is None
        &&& self.v_align == other.v_align || self.v_align is None
        &&& self.filters@ == other.filters@ || self.filters@.len() == 0
        &&& self.smart == other.smart || !self.smart
    }

    /// The segments of the path: those of the options that are set, then the image.
    pub open spec fn segments(self, image_uri: Seq<char>) -> Seq<Seq<char>> {
        present(self.slots()).push(image_uri)
    }

    /// The canonical path: the segments joined by `/`.
    pub open spec fn path_text(self, image_uri: Seq<char>) -> Seq<char> {
        join(self.segments(image_uri), "/"@)
    }

    /// `/`, the signature segment, `/`, then the canonical path.
    pub open spec fn signed_path_text(self, image_uri: Seq<char>) -> Seq<char> {
        "/"@ + signature_text(self.server.security, self.path_text(image_uri)) + "/"@
            + self.path_text(image_uri)
    }

    /// The server origin followed by the signed path.
    pub open spec fn url_text(self, image_uri: Seq<char>) -> Seq<char> {
        self.server.origin@ + self.signed_path_text(image_uri)
    }
}

/// `idx` picks, in increasing order, the entries of `full` that make up `sub`.
pub open spec fn picks(sub: Seq<Seq<char>>, full: Seq<Seq<char>>, idx: Seq<int>) -> bool {
    &&& idx.len() == sub.len()
    &&& forall|k: int| 0 <= k < idx.len() ==> 0 <= #[trigger] idx[k] < full.len() && full[idx[k]] == sub[k]
    &&& forall|k: int, l: int| 0 <= k < l < idx.len() ==> #[trigger] idx[k] < #[trigger] idx[l]
}

/// `sub` is what remains of `full` after some entries are removed, the rest
/// keeping their order.
pub open spec fn is_subsequence(sub: Seq<Seq<char>>, full: Seq<Seq<char>>) -> bool {
    exists|idx: Seq<int>| picks(sub, full, idx)
}

/// Each slot of `fewer` is either the slot of `more` or unset.
pub open spec fn unsets_some(more: Seq<Option<Seq<char>>>, fewer: Seq<Option<Seq<char>>>) -> bool {
    &&& more.len() == fewer.len()
    &&& forall|i: int| 0 <= i < more.len() ==> fewer[i] == more[i] || fewer[i] is None
}

proof fn lemma_present_subsequence(more: Seq<Option<Seq<char>>>, fewer: Seq<Option<Seq<char>>>)
    requires
        unsets_some(more, fewer),
    ensures
        is_subsequence(present(fewer), present(more)),
    decreases more.len(),
{
    if more.len() == 0 {
        assert(picks(present(fewer), present(more), Seq::empty()));
    } else {
        let m0 = more.drop_last();
        let f0 = fewer.drop_last();
        assert(unsets_some(m0, f0));
        lemma_present_subsequence(m0, f0);
        let idx0 = choose|idx: Seq<int>| picks(present(f0), present(m0), idx);
        let last = more.len() - 1;
        if fewer[last] is None {
            assert(present(fewer) =~= present(f0));
            assert(picks(present(fewer), present(more), idx0));
        } else {
            let n = present(m0).len() as int;
            let idx = idx0.push(n);
            assert(present(fewer) =~= present(f0).push(fewer[last]->Some_0));
            assert(present(more) =~= present(m0).push(fewer[last]->Some_0));
            assert forall|k: int| 0 <= k < idx.len() implies 0 <= #[trigger] idx[k] < present(
                more,
            ).len() && present(more)[idx[k]] == present(fewer)[k] by {
                if k < idx0.len() {
                    assert(idx[k] == idx0[k]);
                }
            }
            assert(picks(present(fewer), present(more), idx));
        }
    }
}

/// What an optional string holds, as an optional character sequence.
pub open spec fn opt_view(o: Option<String>) -> Option<Seq<char>> {
    match o {
        Some(s) => Some(s@),
        None => None,
    }
}

/// The filter block: none for an empty list, otherwise `filters:` and the
/// encodings of the filters joined by `:`, in list order.
pub fn filters_string(filters: &Vec<Filter>) -> (r: Option<String>)
    ensures
        opt_view(r) == filters_segment(filters@),
{
    if filters.len() == 0 {
        return None;
    }
    let ghost texts = filters@.map_values(|f: Filter| f.text());
    let mut parts: Vec<String> = Vec::new();
    let mut i: usize = 0;
    while i < filters.len()
        invariant
            i <= filters.len(),
            texts == filters@.map_values(|f: Filter| f.text()),
            views(parts@) =~= texts.take(i as int),
        decreases filters.len() - i,
    {
        let ghost before = parts@;
        parts.push(filters[i].to_string());
        assert(views(parts@) =~= views(before).push(texts[i as int]));
        assert(texts.take(i + 1) =~= texts.take(i as int).push(texts[i as int]));
        i = i + 1;
    }
    assert(texts.take(filters.len() as int) =~= texts);
    let mut r = owned("filters:");
    push_joined(&mut r, &parts, ":");
    Some(r)
}

/// Keeps the entries that are set, in order.
fn collect_present(slots: &Vec<Option<String>>) -> (r: Vec<String>)
    ensures
        views(r@) == present(opt_views(slots@)),
{
    let ghost all = opt_views(slots@);
    let mut r: Vec<String> = Vec::new();
    let mut i: usize = 0;
    while i < slots.len()
        invariant
            i <= slots.len(),
            all == opt_views(slots@),
            views(r@) == present(all.take(i as int)),
        decreases slots.len() - i,
    {
        let ghost before = r@;
        match &slots[i] {
            Some(s) => r.push(s.clone()),
            None => {},
        }
        assert(all.take(i + 1).drop_last() =~= all.take(i as int));
        assert(views(r@) =~= views(before) + optional(all[i as int]));
        i = i + 1;
    }
    assert(all.take(slots.len() as int) =~= all);
    r
}

impl Endpoint {
    /// The segment of each option, in the fixed order of the path.
    fn slot_strings(&self) -> (r: Vec<Option<String>>)
        ensures
            opt_views(r@) == self.slots(),
    {
        let response = match &self.response {
            Some(m) => Some(owned(m.as_str())),
            None => None,
        };
        let trim = match &self.trim {
            Some(t) => Some(owned(t.as_str())),
            None => None,
        };
        let crop = match &self.crop {
            Some(c) => Some(c.to_string()),
            None => None,
        };
        let fit_in = match &self.fit_in {
            Some(f) => Some(owned(f.as_str())),
            None => None,
        };
        let resize = match &self.resize {
            Some(p) => Some(p.to_string()),
            None => None,
        };
        let h_align = match &self.h_align {
            Some(h) => Some(owned(h.as_str())),
            None => None,
        };
        let v_align = match &self.v_align {
            Some(v) => Some(owned(v.as_str())),
            None => None,
        };
        let smart = if self.smart {
            Some(owned("smart"))
        } else {
            None
        };
        let filters = filters_string(&self.filters);
        let r = vec![response, trim, crop, fit_in, resize, h_align, v_align, smart, filters];
        assert(opt_views(r@) =~= self.slots());
        r
    }

    /// The canonical path: the segments of the options that are set, in
    /// their fixed order, then the image identifier, joined by `/`.
    pub fn build_path(&self, image_uri: &str) -> (r: String)
        ensures
            r@ == self.path_text(image_uri@),
    {
        let slots = self.slot_strings();
        let mut parts = collect_present(&slots);
        parts.push(owned(image_uri));
        assert(views(parts@) =~= self.segments(image_uri@));
        let mut r = String::new();
        push_joined(&mut r, &parts, "/");
        assert(r@ =~= self.path_text(image_uri@));
        r
    }

    /// The signature segment for `path`.
    fn signature(&self, path: &String) -> (r: String)
        ensures
            r@ == signature_text(self.server.security, path@),
    {
        match &self.server.security {
            Security::Unsafe => owned("unsafe"),
            Security::Hmac(key) => {
                match hmac_sha1(key.as_str().as_bytes(), path.as_str().as_bytes()) {
                    Ok(tag) => encode_base64_url(tag.as_slice()),
                    Err(_) => String::new(),
                }
            },
        }
    }

    /// `/`, the signature segment, `/`, then the canonical path.
    pub fn to_path(&self, image_uri: &str) -> (r: String)
        ensures
            r@ == self.signed_path_text(image_uri@),
    {
        let path = self.build_path(image_uri);
        let signature = self.signature(&path);
        let mut r = owned("/");
        push_str(&mut r, signature.as_str());
        push_str(&mut r, "/");
        push_str(&mut r, path.as_str());
        assert(r@ =~= self.signed_path_text(image_uri@));
        r
    }

    /// The server origin followed by the signed path.
    pub fn to_url(&self, image_uri: &str) -> (r: String)
        ensures
            r@ == self.url_text(image_uri@),
    {
        let mut r = self.server.origin.clone();
        let path = self.to_path(image_uri);
        push_str(&mut r, path.as_str());
        r
    }

    /// The full URL, parsed. Fails with `Error::UrlParseError` exactly when
    /// the assembled text is not an absolute URL, and with
    /// `Error::UrlCannotBeABase` when it is one that cannot be a base.
    pub fn build_uri(&self, image_uri: &str) -> (r: Result<url::Url, Error>)
        ensures
            r is Ok <==> url_parses(self.url_text(image_uri@)) && !url_cannot_be_a_base(
                self.url_text(image_uri@),
            ),
            r matches Err(Error::UrlParseError(_)) <==> !url_parses(self.url_text(image_uri@)),
            r matches Err(Error::UrlCannotBeABase) <==> url_parses(self.url_text(image_uri@))
                && url_cannot_be_a_base(self.url_text(image_uri@)),
            !(r matches Err(Error::InvalidKey)),
    {
        let text = self.to_url(image_uri);
        match parse_url(text.as_str()) {
            Ok((u, no_base)) => {
                if no_base {
                    Err(Error::UrlCannotBeABase)
                } else {
                    Ok(u)
                }
            },
            Err(e) => Err(Error::UrlParseError(e)),
        }
    }
}

/// Leaving options unset removes their segments and keeps the others in the
/// same relative order: the segments of the smaller endpoint are a
/// subsequence of those of the larger one.
pub proof fn unset_options_keep_order(more: Endpoint, fewer: Endpoint, image_uri: Seq<char>)
    requires
        fewer.unsets_options_of(more),
    ensures
        is_subsequence(fewer.segments(image_uri), more.segments(image_uri)),
{
    let (ms, fs) = (more.slots(), fewer.slots());
    assert(unsets_some(ms, fs));
    lemma_present_subsequence(ms, fs);
    let idx0 = choose|idx: Seq<int>| picks(present(fs), present(ms), idx);
    let idx = idx0.push(present(ms).len() as int);
    assert forall|k: int| 0 <= k < idx.len() implies 0 <= #[trigger] idx[k] < more.segments(
        image_uri,
    ).len() && more.segments(image_uri)[idx[k]] == fewer.segments(image_uri)[k] by {
        if k < idx0.len() {
            assert(idx[k] == idx0[k]);
        }
    }
    assert(picks(fewer.segments(image_uri), more.segments(image_uri), idx));
}

/// Without a key the signature segment is `unsafe`, whatever the options.
pub proof fn unsafe_signature_segment(e: Endpoint, image_uri: Seq<char>)
    requires
        e.server.security == Security::Unsafe,
    ensures
        e.signed_path_text(image_uri) == "/"@ + "unsafe"@ + "/"@ + e.path_text(image_uri),
{
}

/// An empty filter list adds no segment; a non-empty one adds, after the
/// other options and before the image, `filters:` and each filter's encoding
/// in list order, joined by `:`.
pub proof fn filter_list_segment(e: Endpoint, image_uri: Seq<char>)
    ensures
        e.filters@.len() == 0 ==> e.segments(image_uri) == present(e.slots().take(8)).push(
            image_uri,
        ),
        e.filters@.len() > 0 ==> e.segments(image_uri) == present(e.slots().take(8)).push(
            "filters:"@ + join(e.filters@.map_values(|f: Filter| f.text()), ":"@),
        ).push(image_uri),
{
    assert(e.slots().drop_last() =~= e.slots().take(8));
    if e.filters@.len() == 0 {
        assert(present(e.slots()) =~= present(e.slots().take(8)));
    } else {
        assert(present(e.slots()) =~= present(e.slots().take(8)).push(
            "filters:"@ + join(e.filters@.map_values(|f: Filter| f.text()), ":"@),
        ));
    }
}

/// Collects the options of an endpoint, one setter per option. Setting an
/// option again replaces its value.
#[derive(Debug, Clone, PartialEq)]
pub struct EndpointBuilder {
    pub endpoint: Endpoint,
}

impl EndpointBuilder {
    pub open spec fn with_response(self, v: ResponseMode) -> EndpointBuilder {
        EndpointBuilder { endpoint: Endpoint { response: Some(v), ..self.endpoint } }
    }

    pub open spec fn with_trim(self, v: Trim) -> EndpointBuilder {
        EndpointBuilder { endpoint: Endpoint { trim: Some(v), ..self.endpoint } }
    }

    pub open spec fn with_crop(self, v: Rect) -> EndpointBuilder {
        EndpointBuilder { endpoint: Endpoint { crop: Some(v), ..self.endpoint } }
    }

    pub open spec fn with_fit_in(self, v: FitIn) -> EndpointBuilder {
        EndpointBuilder { endpoint: Endpoint { fit_in: Some(v), ..self.endpoint } }
    }

    pub open spec fn with_resize(self, v: Point) -> EndpointBuilder {
        EndpointBuilder { endpoint: Endpoint { resize: Some(v), ..self.endpoint } }
    }

    pub open spec fn with_h_align(self, v: HAlignment) -> EndpointBuilder {
        EndpointBuilder { endpoint: Endpoint { h_align: Some(v), ..self.endpoint } }
    }

    pub open spec fn with_v_align(self, v: VAlignment) -> EndpointBuilder {
        EndpointBuilder { endpoint: Endpoint { v_align: Some(v), ..self.endpoint } }
    }

    pub open spec fn with_filters(self, v: Vec<Filter>) -> EndpointBuilder {
        EndpointBuilder { endpoint: Endpoint { filters: v, ..self.endpoint } }
    }

    pub open spec fn with_smart(self, v: bool) -> EndpointBuilder {
        EndpointBuilder { endpoint: Endpoint { smart: v, ..self.endpoint } }
    }

    pub fn response(self, v: ResponseMode) -> (r: EndpointBuilder)
        ensures
            r == self.with_response(v),
    {
        EndpointBuilder { endpoint: Endpoint { response: Some(v), ..self.endpoint } }
    }

    pub fn trim(self, v: Trim) -> (r: EndpointBuilder)
        ensures
            r == self.with_trim(v),
    {
        EndpointBuilder { endpoint: Endpoint { trim: Some(v), ..self.endpoint } }
    }

    pub fn crop(self, v: Rect) -> (r: EndpointBuilder)
        ensures
            r == self.with_crop(v),
    {
        EndpointBuilder { endpoint: Endpoint { crop: Some(v), ..self.endpoint } }
    }

    pub fn fit_in(self, v: FitIn) -> (r: EndpointBuilder)
        ensures
            r == self.with_fit_in(v),
    {
        EndpointBuilder { endpoint: Endpoint { fit_in: Some(v), ..self.endpoint } }
    }

    pub fn resize(self, v: Point) -> (r: EndpointBuilder)
        ensures
            r == self.with_resize(v),
    {
        EndpointBuilder { endpoint: Endpoint { resize: Some(v), ..self.endpoint } }
    }

    pub fn h_align(self, v: HAlignment) -> (r: EndpointBuilder)
        ensures
            r == self.with_h_align(v),
    {
        EndpointBuilder { endpoint: Endpoint { h_align: Some(v), ..self.endpoint } }
    }

    pub fn v_align(self, v: VAlignment) -> (r: EndpointBuilder)
        ensures
            r == self.with_v_align(v),
    {
        EndpointBuilder { endpoint: Endpoint { v_align: Some(v), ..self.endpoint } }
    }

    pub fn filters(self, v: Vec<Filter>) -> (r: EndpointBuilder)
        ensures
            r == self.with_filters(v),
    {
        EndpointBuilder { endpoint: Endpoint { filters: v, ..self.endpoint } }
    }

    pub fn smart(self, v: bool) -> (r: EndpointBuilder)
        ensures
            r == self.with_smart(v),
    {
        EndpointBuilder { endpoint: Endpoint { smart: v, ..self.endpoint } }
    }

    /// The endpoint with the options set so far.
    pub fn build(self) -> (r: Endpoint)
        ensures
            r == self.endpoint,
    {
        self.endpoint
    }
}

/// Calling a setter twice keeps only the second value.
pub proof fn setters_keep_last_value(
    b: EndpointBuilder,
    response: (ResponseMode, ResponseMode),
    trim: (Trim, Trim),
    crop: (Rect, Rect),
    fit_in: (FitIn, FitIn),
    resize: (Point, Point),
    h_align: (HAlignment, HAlignment),
    v_align: (VAlignment, VAlignment),
    filters: (Vec<Filter>, Vec<Filter>),
    smart: (bool, bool),
)
    ensures
        b.with_response(response.0).with_response(response.1) == b.with_response(response.1),
        b.with_trim(trim.0).with_trim(trim.1) == b.with_trim(trim.1),
        b.with_crop(crop.0).with_crop(crop.1) == b.with_crop(crop.1),
        b.with_fit_in(fit_in.0).with_fit_in(fit_in.1) == b.with_fit_in(fit_in.1),
        b.with_resize(resize.0).with_resize(resize.1) == b.with_resize(resize.1),
        b.with_h_align(h_align.0).with_h_align(h_align.1) == b.with_h_align(h_align.1),
        b.with_v_align(v_align.0).with_v_align(v_align.1) == b.with_v_align(v_align.1),
        b.with_filters(filters.0).with_filters(filters.1) == b.with_filters(filters.1),
        b.with_smart(smart.0).with_smart(smart.1) == b.with_smart(smart.1),
{
}

impl Endpoint {
    /// A builder for an endpoint on `server`, with no option set.
    pub fn with_server(server: Server) -> (r: EndpointBuilder)
        ensures
            r.endpoint.is_bare_on(server),
    {
        EndpointBuilder {
            endpoint: Endpoint {
                server,
                response: None,
                trim: None,
                crop: None,
                fit_in: None,
                resize: None,
                h_align: None,
                v_align: None,
                filters: Vec::new(),
                smart: false,
            },
        }
    }
}

} // verus!
