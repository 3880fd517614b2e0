//! Outgoing (device-to-cloud) and incoming (cloud-to-device) messages, their
//! builder, and their translation to and from the native message handle.
//!
//! An outgoing message is turned into the sequence of native calls that fill
//! a fresh native handle (`IotMessage::native_steps`); an incoming message is
//! assembled from what was read out of a borrowed native handle
//! (`IotMessage::from_incoming`).
use vstd::prelude::*;

verus! {

/// Direction of a message.
#[derive(Clone, Copy, Debug, PartialEq, Eq, Structural)]
pub enum Direction {
    /// incoming cloud-to-device message: its native handle is borrowed
    Incoming,
    /// outgoing device-to-cloud message: it owns the native handle it fills
    Outgoing,
}

impl Default for Direction {
    fn default() -> (r: Self)
        ensures
            r == Direction::Outgoing,
    {
        Direction::Outgoing
    }
}

/// The recognised system properties of a message; absent ones are `None`.
#[derive(Debug)]
pub struct SystemProperties {
    /// message id (`$.mid`)
    pub message_id: Option<String>,
    /// correlation id (`$.cid`)
    pub correlation_id: Option<String>,
    /// content type (`$.ct`)
    pub content_type: Option<String>,
    /// content encoding (`$.ce`)
    pub content_encoding: Option<String>,
}

/// The view of an optional text.
pub open spec fn opt_text(o: Option<String>) -> Option<Seq<char>> {
    match o {
        Some(s) => Some(s@),
        None => None,
    }
}

/// The abstract system properties.
pub ghost struct SystemView {
    pub message_id: Option<Seq<char>>,
    pub correlation_id: Option<Seq<char>>,
    pub content_type: Option<Seq<char>>,
    pub content_encoding: Option<Seq<char>>,
}

impl View for SystemProperties {
    type V = SystemView;

    open spec fn view(&self) -> SystemView {
        SystemView {
            message_id: opt_text(self.message_id),
            correlation_id: opt_text(self.correlation_id),
            content_type: opt_text(self.content_type),
            content_encoding: opt_text(self.content_encoding),
        }
    }
}

/// A key/value list of user properties, as character sequences.
pub type PropertyList = Seq<(Seq<char>, Seq<char>)>;

/// The view of a list of user properties.
pub open spec fn pairs_view(v: Seq<(String, String)>) -> PropertyList {
    v.map_values(|p: (String, String)| (p.0@, p.1@))
}

/// No key occurs twice.
pub open spec fn keys_unique(s: PropertyList) -> bool {
    forall|a: int, b: int| 0 <= a < s.len() && 0 <= b < s.len() && a != b ==> s[a].0 != s[b].0
}

/// Some entry has key `k`.
pub open spec fn has_key(s: PropertyList, k: Seq<char>) -> bool {
    exists|i: int| 0 <= i < s.len() && #[trigger] s[i].0 == k
}

/// The position of the entry with key `k`.
pub open spec fn key_index(s: PropertyList, k: Seq<char>) -> int {
    choose|i: int| 0 <= i < s.len() && #[trigger] s[i].0 == k
}

/// The value stored under `k`, if any.
pub open spec fn lookup(s: PropertyList, k: Seq<char>) -> Option<Seq<char>> {
    if has_key(s, k) {
        Some(s[key_index(s, k)].1)
    } else {
        None
    }
}

/// The list after setting `k` to `v`: an existing entry is replaced in place,
/// a new key is appended.
pub open spec fn with_property(s: PropertyList, k: Seq<char>, v: Seq<char>) -> PropertyList {
    if has_key(s, k) {
        s.update(key_index(s, k), (k, v))
    } else {
        s.push((k, v))
    }
}

/// The list obtained by setting each entry of `entries` in turn, starting from `s`.
pub open spec fn with_properties(s: PropertyList, entries: PropertyList) -> PropertyList
    decreases entries.len(),
{
    if entries.len() == 0 {
        s
    } else {
        let e = entries.last();
        with_property(with_properties(s, entries.drop_last()), e.0, e.1)
    }
}

/// True when the text holds a NUL character, which native strings cannot carry.
pub open spec fn has_nul(s: Seq<char>) -> bool {
    s.contains('\0')
}

/// True when no key or value of the list holds a NUL character.
pub open spec fn pairs_nul_free(s: PropertyList) -> bool {
    forall|i: int| 0 <= i < s.len() ==> !has_nul(#[trigger] s[i].0) && !has_nul(s[i].1)
}

/// True when the optional text holds no NUL character.
pub open spec fn opt_nul_free(o: Option<Seq<char>>) -> bool {
    match o {
        Some(s) => !has_nul(s),
        None => true,
    }
}

/// True when no system property holds a NUL character.
pub open spec fn system_nul_free(s: SystemView) -> bool {
    opt_nul_free(s.message_id) && opt_nul_free(s.correlation_id) && opt_nul_free(s.content_type)
        && opt_nul_free(s.content_encoding)
}

/// The abstract message.
pub ghost struct MessageView {
    pub body: Seq<u8>,
    pub output_queue: Seq<char>,
    pub direction: Direction,
    pub properties: PropertyList,
    pub system: SystemView,
}

/// A message, outgoing or incoming.
#[derive(Debug)]
pub struct IotMessage {
    body: Vec<u8>,
    output_queue: String,
    direction: Direction,
    properties: Vec<(String, String)>,
    system_properties: SystemProperties,
}

impl View for IotMessage {
    type V = MessageView;

    closed spec fn view(&self) -> MessageView {
        MessageView {
            body: self.body@,
            output_queue: self.output_queue@,
            direction: self.direction,
            properties: pairs_view(self.properties@),
            system: self.system_properties@,
        }
    }
}

/// The abstract builder.
pub ghost struct BuilderView {
    pub body: Option<Seq<u8>>,
    pub output_queue: Seq<char>,
    pub properties: PropertyList,
    pub system: SystemView,
}

/// Builder of outgoing messages.
#[derive(Debug)]
pub struct IotMessageBuilder {
    message: Option<Vec<u8>>,
    output_queue: String,
    properties: Vec<(String, String)>,
    system_properties: SystemProperties,
}

impl View for IotMessageBuilder {
    type V = BuilderView;

    closed spec fn view(&self) -> BuilderView {
        BuilderView {
            body: match self.message {
                Some(b) => Some(b@),
                None => None,
            },
            output_queue: self.output_queue@,
            properties: pairs_view(self.properties@),
            system: self.system_properties@,
        }
    }
}

/// Error of message assembly.
#[derive(Clone, Copy, Debug, PartialEq, Eq, Structural)]
pub enum MessageError {
    /// a text (queue name, property key or value) holds a NUL character
    NulInText,
}

/// One native call that fills an outgoing native message handle.
#[derive(Debug)]
pub enum NativeStep {
    /// create the handle from the body bytes
    CreateFromBytes(Vec<u8>),
    /// set the message id
    SetMessageId(String),
    /// set the correlation id
    SetCorrelationId(String),
    /// set the content type
    SetContentType(String),
    /// set the content encoding
    SetContentEncoding(String),
    /// set a user property
    SetProperty(String, String),
}

/// The abstract native call.
pub ghost enum StepView {
    CreateFromBytes(Seq<u8>),
    SetMessageId(Seq<char>),
    SetCorrelationId(Seq<char>),
    SetContentType(Seq<char>),
    SetContentEncoding(Seq<char>),
    SetProperty(Seq<char>, Seq<char>),
}

impl View for NativeStep {
    type V = StepView;

    open spec fn view(&self) -> StepView {
        match self {
            NativeStep::CreateFromBytes(b) => StepView::CreateFromBytes(b@),
            NativeStep::SetMessageId(s) => StepView::SetMessageId(s@),
            NativeStep::SetCorrelationId(s) => StepView::SetCorrelationId(s@),
            NativeStep::SetContentType(s) => StepView::SetContentType(s@),
            NativeStep::SetContentEncoding(s) => StepView::SetContentEncoding(s@),
            NativeStep::SetProperty(k, v) => StepView::SetProperty(k@, v@),
        }
    }
}

/// The views of a list of native calls.
pub open spec fn steps_view(v: Seq<NativeStep>) -> Seq<StepView> {
    v.map_values(|s: NativeStep| s@)
}

/// The optional step that sets a system property.
pub open spec fn opt_step(o: Option<Seq<char>>, f: spec_fn(Seq<char>) -> StepView) -> Seq<StepView> {
    match o {
        Some(s) => seq![f(s)],
        None => seq![],
    }
}

/// The setting of each user property, in order.
pub open spec fn property_steps(p: PropertyList) -> Seq<StepView> {
    p.map_values(|e: (Seq<char>, Seq<char>)| StepView::SetProperty(e.0, e.1))
}

/// The native calls that fill a handle for message `m`: creation from the
/// body, the present system properties (id, correlation id, content type,
/// content encoding), then the user properties in order.
pub open spec fn encode(m: MessageView) -> Seq<StepView> {
    seq![StepView::CreateFromBytes(m.body)] + opt_step(m.system.message_id, |s| StepView::SetMessageId(s))
        + opt_step(m.system.correlation_id, |s| StepView::SetCorrelationId(s)) + opt_step(
        m.system.content_type,
        |s| StepView::SetContentType(s),
    ) + opt_step(m.system.content_encoding, |s| StepView::SetContentEncoding(s))
        + property_steps(m.properties)
}

/// What a native message handle holds.
pub ghost struct NativeImage {
    pub body: Seq<u8>,
    pub system: SystemView,
    pub properties: PropertyList,
}

/// An empty native handle.
pub open spec fn empty_image() -> NativeImage {
    NativeImage {
        body: seq![],
        system: SystemView {
            message_id: None,
            correlation_id: None,
            content_type: None,
            content_encoding: None,
        },
        properties: seq![],
    }
}

/// The effect of one native call on a handle. Setting a property that is
/// already there replaces its value.
pub open spec fn apply_step(h: NativeImage, s: StepView) -> NativeImage {
    match s {
        StepView::CreateFromBytes(b) => NativeImage { body: b, ..empty_image() },
        StepView::SetMessageId(v) => NativeImage {
            system: SystemView { message_id: Some(v), ..h.system },
            ..h
        },
        StepView::SetCorrelationId(v) => NativeImage {
            system: SystemView { correlation_id: Some(v), ..h.system },
            ..h
        },
        StepView::SetContentType(v) => NativeImage {
            system: SystemView { content_type: Some(v), ..h.system },
            ..h
        },
        StepView::SetContentEncoding(v) => NativeImage {
            system: SystemView { content_encoding: Some(v), ..h.system },
            ..h
        },
        StepView::SetProperty(k, v) => NativeImage {
            properties: with_property(h.properties, k, v),
            ..h
        },
    }
}

/// The handle after the native calls `steps`, in order, on an empty one.
pub open spec fn apply_steps(steps: Seq<StepView>) -> NativeImage
    decreases steps.len(),
{
    if steps.len() == 0 {
        empty_image()
    } else {
        apply_step(apply_steps(steps.drop_last()), steps.last())
    }
}

/// What was read out of a borrowed native handle of an incoming message.
#[derive(Debug)]
pub struct IncomingParts {
    /// the body; `None` when the native layer reported no body buffer
    pub body: Option<Vec<u8>>,
    /// the recognised system properties that are present
    pub system_properties: SystemProperties,
    /// each requested property key with its value, `None` when absent
    pub properties: Vec<(String, Option<String>)>,
}

/// The abstract read-out of an incoming handle.
pub ghost struct PartsView {
    pub body: Option<Seq<u8>>,
    pub system: SystemView,
    pub properties: Seq<(Seq<char>, Option<Seq<char>>)>,
}

impl View for IncomingParts {
    type V = PartsView;

    open spec fn view(&self) -> PartsView {
        PartsView {
            body: match self.body {
                Some(b) => Some(b@),
                None => None,
            },
            system: self.system_properties@,
            properties: self.properties@.map_values(
                |p: (String, Option<String>)| (p.0@, opt_text(p.1)),
            ),
        }
    }
}

/// Reading the keys `keys` out of a native handle holding `h`.
pub open spec fn read_image(h: NativeImage, keys: Seq<Seq<char>>) -> PartsView {
    PartsView {
        body: Some(h.body),
        system: h.system,
        properties: keys.map_values(|k: Seq<char>| (k, lookup(h.properties, k))),
    }
}

/// The user properties found among the requested ones, in order.
pub open spec fn found_properties(p: Seq<(Seq<char>, Option<Seq<char>>)>) -> PropertyList
    decreases p.len(),
{
    if p.len() == 0 {
        seq![]
    } else {
        let rest = found_properties(p.drop_last());
        match p.last().1 {
            Some(v) => with_property(rest, p.last().0, v),
            None => rest,
        }
    }
}

/// The incoming message assembled from a read-out: an absent body is empty,
/// present system properties are kept, and each requested property that was
/// found is set; the queue is the default one.
pub open spec fn decode(p: PartsView) -> MessageView {
    MessageView {
        body: match p.body {
            Some(b) => b,
            None => seq![],
        },
        output_queue: "output"@,
        direction: Direction::Incoming,
        properties: found_properties(p.properties),
        system: p.system,
    }
}

/// The keys of a property list, in order.
pub open spec fn keys_of(p: PropertyList) -> Seq<Seq<char>> {
    p.map_values(|e: (Seq<char>, Seq<char>)| e.0)
}

/// Whether the text holds a NUL character.
pub fn contains_nul(s: &str) -> (r: bool)
    ensures
        r == has_nul(s@),
{
    let n = s.unicode_len();
    let mut i: usize = 0;
    while i < n
        invariant
            n == s@.len(),
            0 <= i <= n,
            forall|k: int| 0 <= k < i ==> s@[k] != '\0',
        decreases n - i,
    {
        if s.get_char(i) == '\0' {
            proof {
                assert(s@[i as int] == '\0');
            }
            return true;
        }
        i = i + 1;
    }
    false
}

fn opt_contains_nul(o: &Option<String>) -> (r: bool)
    ensures
        r == !opt_nul_free(opt_text(*o)),
{
    match o {
        Some(s) => contains_nul(s.as_str()),
        None => false,
    }
}

fn system_contains_nul(s: &SystemProperties) -> (r: bool)
    ensures
        r == !system_nul_free(s@),
{
    opt_contains_nul(&s.message_id) || opt_contains_nul(&s.correlation_id) || opt_contains_nul(
        &s.content_type,
    ) || opt_contains_nul(&s.content_encoding)
}

fn pairs_contain_nul(v: &Vec<(String, String)>) -> (r: bool)
    ensures
        r == !pairs_nul_free(pairs_view(v@)),
{
    let ghost pv = pairs_view(v@);
    let mut i: usize = 0;
    while i < v.len()
        invariant
            0 <= i <= v@.len(),
            pv == pairs_view(v@),
            pv.len() == v@.len(),
            forall|k: int| 0 <= k < i ==> !has_nul(#[trigger] pv[k].0) && !has_nul(pv[k].1),
        decreases v@.len() - i,
    {
        let pair = &v[i];
        let key_nul = contains_nul(pair.0.as_str());
        let value_nul = contains_nul(pair.1.as_str());
        proof {
            assert(pv[i as int] == (pair.0@, pair.1@));
            assert(key_nul == has_nul(pair.0@));
            assert(value_nul == has_nul(pair.1@));
            assert(key_nul == has_nul(pv[i as int].0));
        }
        if key_nul || value_nul {
            return true;
        }
        proof {
            assert forall|k: int| 0 <= k < i + 1 implies !has_nul(#[trigger] pv[k].0) && !has_nul(
                pv[k].1,
            ) by {
                if k == i {
                    assert(!has_nul(pair.1@));
                }
            }
        }
        i = i + 1;
    }
    false
}

/// Sets `key` to `value` in the list: replaces the value of an existing
/// entry in place, or appends a new entry.
fn set_pair(v: &mut Vec<(String, String)>, key: String, value: String)
    requires
        keys_unique(pairs_view(old(v)@)),
    ensures
        pairs_view(final(v)@) == with_property(pairs_view(old(v)@), key@, value@),
        keys_unique(pairs_view(final(v)@)),
{
    let ghost s = pairs_view(v@);
    let mut i: usize = 0;
    while i < v.len()
        invariant
            0 <= i <= v@.len(),
            v@ == old(v)@,
            s == pairs_view(v@),
            keys_unique(s),
            forall|k: int| 0 <= k < i ==> s[k].0 != key@,
        decreases v@.len() - i,
    {
        if v[i].0 == key {
            proof {
                assert(s[i as int].0 == key@);
                assert(has_key(s, key@));
                let j = key_index(s, key@);
                assert(j == i);
            }
            v.remove(i);
            v.insert(i, (key, value));
            proof {
                let t = pairs_view(v@);
                assert(t =~= s.update(i as int, (key@, value@)));
            }
            return;
        }
        i = i + 1;
    }
    v.push((key, value));
    proof {
        let t = pairs_view(v@);
        assert(t =~= s.push((key@, value@)));
    }
}

impl IotMessage {
    /// A builder for an outgoing message, with the default output queue
    /// `"output"` and nothing else set.
    pub fn builder() -> (r: IotMessageBuilder)
        ensures
            r@ == (BuilderView {
                body: None,
                output_queue: "output"@,
                properties: seq![],
                system: SystemView {
                    message_id: None,
                    correlation_id: None,
                    content_type: None,
                    content_encoding: None,
                },
            }),
            r.wf(),
    {
        let r = IotMessageBuilder {
            message: None,
            output_queue: String::from_str("output"),
            properties: Vec::new(),
            system_properties: SystemProperties {
                message_id: None,
                correlation_id: None,
                content_type: None,
                content_encoding: None,
            },
        };
        proof {
            assert(pairs_view(r.properties@) =~= seq![]);
        }
        r
    }

    /// The well-formedness of a message: no user property key occurs twice.
    pub open spec fn wf(&self) -> bool {
        keys_unique(self@.properties)
    }

    /// Assembles an incoming message from what was read out of its borrowed
    /// native handle (see `decode`).
    pub fn from_incoming(parts: IncomingParts) -> (r: IotMessage)
        ensures
            r@ == decode(parts@),
            r.wf(),
    {
        let ghost pv = parts@.properties;
        let IncomingParts { body, system_properties, properties } = parts;
        let mut found: Vec<(String, String)> = Vec::new();
        let mut rest = properties;
        let ghost orig = rest@;
        proof {
            assert(pairs_view(found@) =~= seq![]);
            assert(pv.subrange(0, 0) =~= seq![]);
            assert(rest@ =~= orig.subrange(0, orig.len() as int));
        }
        let n = rest.len();
        while rest.len() > 0
            invariant
                n == pv.len(),
                orig.len() == n,
                rest@.len() <= n,
                rest@ =~= orig.subrange(n - rest@.len(), n as int),
                forall|k: int| 0 <= k < n ==> (#[trigger] orig[k].0@, opt_text(orig[k].1)) == pv[k],
                pairs_view(found@) == found_properties(pv.subrange(0, n - rest@.len())),
                keys_unique(pairs_view(found@)),
            decreases rest@.len(),
        {
            let ghost m = n - rest@.len();
            let (k, v) = rest.remove(0);
            proof {
                assert(pv.subrange(0, m + 1).drop_last() =~= pv.subrange(0, m));
                assert(orig[m] == (k, v));
                assert((k@, opt_text(v)) == pv[m]);
                assert(rest@ =~= orig.subrange(n - rest@.len(), n as int));
            }
            match v {
                Some(value) => set_pair(&mut found, k, value),
                None => {},
            }
        }
        proof {
            assert(pv.subrange(0, n as int) =~= pv);
        }
        let msg = IotMessage {
            body: match body {
                Some(b) => b,
                None => Vec::new(),
            },
            output_queue: String::from_str("output"),
            direction: Direction::Incoming,
            properties: found,
            system_properties,
        };
        proof {
            assert(msg@.body =~= decode(parts@).body);
        }
        msg
    }

    /// The native calls that fill a fresh native handle for this outgoing
    /// message (see `encode`).
    pub fn native_steps(&self) -> (r: Vec<NativeStep>)
        requires
            self@.direction == Direction::Outgoing,
        ensures
            steps_view(r@) == encode(self@),
    {
        let mut steps: Vec<NativeStep> = Vec::new();
        steps.push(NativeStep::CreateFromBytes(self.body.clone()));
        match &self.system_properties.message_id {
            Some(s) => steps.push(NativeStep::SetMessageId(s.clone())),
            None => {},
        }
        match &self.system_properties.correlation_id {
            Some(s) => steps.push(NativeStep::SetCorrelationId(s.clone())),
            None => {},
        }
        match &self.system_properties.content_type {
            Some(s) => steps.push(NativeStep::SetContentType(s.clone())),
            None => {},
        }
        match &self.system_properties.content_encoding {
            Some(s) => steps.push(NativeStep::SetContentEncoding(s.clone())),
            None => {},
        }
        let ghost head = steps_view(steps@);
        proof {
            let m = self@;
            assert(head =~= seq![StepView::CreateFromBytes(m.body)] + opt_step(
                m.system.message_id,
                |s| StepView::SetMessageId(s),
            ) + opt_step(m.system.correlation_id, |s| StepView::SetCorrelationId(s)) + opt_step(
                m.system.content_type,
                |s| StepView::SetContentType(s),
            ) + opt_step(m.system.content_encoding, |s| StepView::SetContentEncoding(s)));
        }
        let mut i: usize = 0;
        while i < self.properties.len()
            invariant
                0 <= i <= self.properties@.len(),
                steps_view(steps@) =~= head + property_steps(pairs_view(self.properties@).subrange(0, i as int)),
            decreases self.properties@.len() - i,
        {
            let k = self.properties[i].0.clone();
            let v = self.properties[i].1.clone();
            let ghost before = steps_view(steps@);
            steps.push(NativeStep::SetProperty(k, v));
            proof {
                let pv = pairs_view(self.properties@);
                assert(pv[i as int] == (k@, v@));
                assert(pv.subrange(0, i + 1) =~= pv.subrange(0, i as int).push((k@, v@)));
                assert(property_steps(pv.subrange(0, i + 1)) =~= property_steps(pv.subrange(0, i as int)).push(StepView::SetProperty(k@, v@)));
                assert(steps_view(steps@) =~= before.push(StepView::SetProperty(k@, v@)));
            }
            i = i + 1;
        }
        proof {
            assert(pairs_view(self.properties@).subrange(0, self.properties@.len() as int) =~= pairs_view(self.properties@));
        }
        steps
    }

    /// The body.
    pub fn body(&self) -> (r: &Vec<u8>)
        ensures
            r@ == self@.body,
    {
        &self.body
    }

    /// The output queue name.
    pub fn output_queue(&self) -> (r: &String)
        ensures
            r@ == self@.output_queue,
    {
        &self.output_queue
    }

    /// The direction.
    pub fn direction(&self) -> (r: Direction)
        ensures
            r == self@.direction,
    {
        self.direction
    }

    /// The user properties, each key once.
    pub fn properties(&self) -> (r: &Vec<(String, String)>)
        ensures
            pairs_view(r@) == self@.properties,
    {
        &self.properties
    }

    /// The system properties.
    pub fn system_properties(&self) -> (r: &SystemProperties)
        ensures
            r@ == self@.system,
    {
        &self.system_properties
    }

    /// Whether releasing this message must release its native handle: only
    /// an outgoing message owns one.
    pub fn owns_native_handle(&self) -> (r: bool)
        ensures
            r == (self@.direction == Direction::Outgoing),
    {
        match self.direction {
            Direction::Outgoing => true,
            Direction::Incoming => false,
        }
    }
}

impl IotMessageBuilder {
    /// The well-formedness of a builder: no user property key occurs twice.
    pub open spec fn wf(&self) -> bool {
        keys_unique(self@.properties)
    }

    /// Sets the body.
    pub fn set_body(self, body: Vec<u8>) -> (r: Self)
        requires
            self.wf(),
        ensures
            r@ == (BuilderView { body: Some(body@), ..self@ }),
            r.wf(),
    {
        IotMessageBuilder { message: Some(body), ..self }
    }

    /// Sets the message id.
    pub fn set_id(self, mid: String) -> (r: Self)
        requires
            self.wf(),
        ensures
            r@ == (BuilderView { system: SystemView { message_id: Some(mid@), ..self@.system }, ..self@ }),
            r.wf(),
    {
        let IotMessageBuilder { message, output_queue, properties, system_properties } = self;
        IotMessageBuilder {
            message,
            output_queue,
            properties,
            system_properties: SystemProperties { message_id: Some(mid), ..system_properties },
        }
    }

    /// Sets the correlation id.
    pub fn set_correlation_id(self, cid: String) -> (r: Self)
        requires
            self.wf(),
        ensures
            r@ == (BuilderView { system: SystemView { correlation_id: Some(cid@), ..self@.system }, ..self@ }),
            r.wf(),
    {
        let IotMessageBuilder { message, output_queue, properties, system_properties } = self;
        IotMessageBuilder {
            message,
            output_queue,
            properties,
            system_properties: SystemProperties { correlation_id: Some(cid), ..system_properties },
        }
    }

    /// Sets the content type, such as `application/json`.
    pub fn set_content_type(self, content_type: String) -> (r: Self)
        requires
            self.wf(),
        ensures
            r@ == (BuilderView { system: SystemView { content_type: Some(content_type@), ..self@.system }, ..self@ }),
            r.wf(),
    {
        let IotMessageBuilder { message, output_queue, properties, system_properties } = self;
        IotMessageBuilder {
            message,
            output_queue,
            properties,
            system_properties: SystemProperties { content_type: Some(content_type), ..system_properties },
        }
    }

    /// Sets the content encoding, such as `utf-8`.
    pub fn set_content_encoding(self, content_encoding: String) -> (r: Self)
        requires
            self.wf(),
        ensures
            r@ == (BuilderView { system: SystemView { content_encoding: Some(content_encoding@), ..self@.system }, ..self@ }),
            r.wf(),
    {
        let IotMessageBuilder { message, output_queue, properties, system_properties } = self;
        IotMessageBuilder {
            message,
            output_queue,
            properties,
            system_properties: SystemProperties { content_encoding: Some(content_encoding), ..system_properties },
        }
    }

    /// Sets the output queue.
    pub fn set_output_queue(self, queue: String) -> (r: Self)
        requires
            self.wf(),
        ensures
            r@ == (BuilderView { output_queue: queue@, ..self@ }),
            r.wf(),
    {
        IotMessageBuilder { output_queue: queue, ..self }
    }

    /// Sets a user property; a key set before gets the new value.
    pub fn set_property(self, key: String, value: String) -> (r: Self)
        requires
            self.wf(),
        ensures
            r@ == (BuilderView { properties: with_property(self@.properties, key@, value@), ..self@ }),
            r.wf(),
    {
        let IotMessageBuilder { message, output_queue, properties, system_properties } = self;
        let mut properties = properties;
        set_pair(&mut properties, key, value);
        IotMessageBuilder { message, output_queue, properties, system_properties }
    }

    /// Builds the outgoing message. Fails exactly when the output queue, a
    /// property key or value, or a system property holds a NUL character.
    pub fn build(self) -> (r: Result<IotMessage, MessageError>)
        requires
            self.wf(),
            self@.body is Some,
        ensures
            r is Err <==> has_nul(self@.output_queue) || !pairs_nul_free(self@.properties)
                || !system_nul_free(self@.system),
            r matches Err(e) ==> e == MessageError::NulInText,
            r matches Ok(m) ==> m.wf() && m@ == (MessageView {
                body: self@.body->0,
                output_queue: self@.output_queue,
                direction: Direction::Outgoing,
                properties: self@.properties,
                system: self@.system,
            }),
    {
        if contains_nul(self.output_queue.as_str()) || pairs_contain_nul(&self.properties)
            || system_contains_nul(&self.system_properties) {
            return Err(MessageError::NulInText);
        }
        let IotMessageBuilder { message, output_queue, properties, system_properties } = self;
        let body = match message {
            Some(b) => b,
            None => Vec::new(),
        };
        Ok(IotMessage { body, output_queue, direction: Direction::Outgoing, properties, system_properties })
    }
}

proof fn lemma_apply_push(s: Seq<StepView>, x: StepView)
    ensures
        apply_steps(s.push(x)) == apply_step(apply_steps(s), x),
{
    assert(s.push(x).drop_last() =~= s);
}

proof fn lemma_apply_opt(s: Seq<StepView>, o: Option<Seq<char>>, f: spec_fn(Seq<char>) -> StepView)
    ensures
        apply_steps(s + opt_step(o, f)) == match o {
            Some(v) => apply_step(apply_steps(s), f(v)),
            None => apply_steps(s),
        },
{
    match o {
        Some(v) => {
            assert(s + opt_step(o, f) =~= s.push(f(v)));
            lemma_apply_push(s, f(v));
        },
        None => {
            assert(s + opt_step(o, f) =~= s);
        },
    }
}

proof fn lemma_apply_properties(h: Seq<StepView>, props: PropertyList)
    ensures
        apply_steps(h + property_steps(props)) == (NativeImage {
            properties: with_properties(apply_steps(h).properties, props),
            ..apply_steps(h)
        }),
    decreases props.len(),
{
    if props.len() == 0 {
        assert(h + property_steps(props) =~= h);
    } else {
        let d = props.drop_last();
        let e = props.last();
        lemma_apply_properties(h, d);
        assert(h + property_steps(props) =~= (h + property_steps(d)).push(
            StepView::SetProperty(e.0, e.1),
        ));
        lemma_apply_push(h + property_steps(d), StepView::SetProperty(e.0, e.1));
    }
}

proof fn lemma_unique_prefix(props: PropertyList, n: int)
    requires
        keys_unique(props),
        0 <= n <= props.len(),
    ensures
        keys_unique(props.subrange(0, n)),
        n < props.len() ==> !has_key(props.subrange(0, n), props[n].0),
{
    let p = props.subrange(0, n);
    assert forall|a: int, b: int| 0 <= a < p.len() && 0 <= b < p.len() && a != b implies p[a].0
        != p[b].0 by {
        assert(p[a] == props[a] && p[b] == props[b]);
    }
    if n < props.len() && has_key(p, props[n].0) {
        let j = choose|j: int| 0 <= j < p.len() && #[trigger] p[j].0 == props[n].0;
        assert(p[j] == props[j]);
    }
}

proof fn lemma_with_properties_fresh(props: PropertyList)
    requires
        keys_unique(props),
    ensures
        with_properties(seq![], props) == props,
    decreases props.len(),
{
    if props.len() > 0 {
        let n = props.len() - 1;
        lemma_unique_prefix(props, n);
        assert(props.drop_last() =~= props.subrange(0, n));
        lemma_with_properties_fresh(props.drop_last());
        assert(props.drop_last().push(props.last()) =~= props);
    }
}

proof fn lemma_lookup_unique(props: PropertyList, i: int)
    requires
        keys_unique(props),
        0 <= i < props.len(),
    ensures
        lookup(props, props[i].0) == Some(props[i].1),
{
    assert(has_key(props, props[i].0));
}

proof fn lemma_found_all(q: Seq<(Seq<char>, Option<Seq<char>>)>, props: PropertyList)
    requires
        keys_unique(props),
        q.len() <= props.len(),
        forall|i: int| 0 <= i < q.len() ==> #[trigger] q[i] == (props[i].0, Some(props[i].1)),
    ensures
        found_properties(q) == props.subrange(0, q.len() as int),
    decreases q.len(),
{
    if q.len() > 0 {
        let n = q.len() - 1;
        let d = q.drop_last();
        assert forall|i: int| 0 <= i < d.len() implies #[trigger] d[i] == (
            props[i].0,
            Some(props[i].1),
        ) by {
            assert(d[i] == q[i]);
        }
        lemma_found_all(d, props);
        lemma_unique_prefix(props, n);
        assert(q[n] == (props[n].0, Some(props[n].1)));
        assert(props.subrange(0, n).push(props[n]) =~= props.subrange(0, n + 1));
    } else {
        assert(props.subrange(0, 0) =~= seq![]);
    }
}

/// Round trip: filling a native handle with an outgoing message's native
/// calls, reading it back with the message's own property keys and decoding
/// the read-out gives back the message's body, user properties and system
/// properties.
pub proof fn lemma_round_trip(m: MessageView)
    requires
        keys_unique(m.properties),
    ensures
        ({
            let d = decode(read_image(apply_steps(encode(m)), keys_of(m.properties)));
            &&& d.body == m.body
            &&& d.properties == m.properties
            &&& d.system == m.system
        }),
{
    let h0: Seq<StepView> = seq![StepView::CreateFromBytes(m.body)];
    let h1 = h0 + opt_step(m.system.message_id, |s| StepView::SetMessageId(s));
    let h2 = h1 + opt_step(m.system.correlation_id, |s| StepView::SetCorrelationId(s));
    let h3 = h2 + opt_step(m.system.content_type, |s| StepView::SetContentType(s));
    let h4 = h3 + opt_step(m.system.content_encoding, |s| StepView::SetContentEncoding(s));
    assert(h0 =~= seq![].push(StepView::CreateFromBytes(m.body)));
    lemma_apply_push(seq![], StepView::CreateFromBytes(m.body));
    lemma_apply_opt(h0, m.system.message_id, |s| StepView::SetMessageId(s));
    lemma_apply_opt(h1, m.system.correlation_id, |s| StepView::SetCorrelationId(s));
    lemma_apply_opt(h2, m.system.content_type, |s| StepView::SetContentType(s));
    lemma_apply_opt(h3, m.system.content_encoding, |s| StepView::SetContentEncoding(s));
    assert(encode(m) == h4 + property_steps(m.properties));
    lemma_apply_properties(h4, m.properties);
    let img = apply_steps(encode(m));
    assert(apply_steps(h4).properties == Seq::<(Seq<char>, Seq<char>)>::empty());
    assert(apply_steps(h4).system == m.system);
    lemma_with_properties_fresh(m.properties);
    assert(img.properties == m.properties);
    let r = read_image(img, keys_of(m.properties));
    assert forall|i: int| 0 <= i < r.properties.len() implies #[trigger] r.properties[i] == (
        m.properties[i].0,
        Some(m.properties[i].1),
    ) by {
        lemma_lookup_unique(m.properties, i);
    }
    lemma_found_all(r.properties, m.properties);
    assert(m.properties.subrange(0, m.properties.len() as int) =~= m.properties);
}

} // verus!
