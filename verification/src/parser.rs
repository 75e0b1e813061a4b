//! Stream-framed CCSDS parser.
//!
//! A [`CcsdsParser`] accumulates bytes from an incremental feed and yields
//! discrete packets. Each packet in the stream may be wrapped in a
//! fixed-width opaque prefix and postfix; the packet's size comes either
//! from the primary header's length field (variable mode) or from a
//! configured fixed size. Packets whose APID is not on the configured
//! allow-list are consumed and reported as dropped.
//!
//! The parse of a byte sequence is defined by the spec functions
//! [`parse_step`], [`parse_items`] and [`parse_rest`]; the executable
//! `append` and `pull` are proved against them.

use vstd::prelude::*;

use crate::header::{decode_header, spec_header, PrimaryHeader};

verus! {

/// Configuration snapshot of the parser.
#[derive(Clone, Debug, PartialEq)]
pub struct CcsdsParserConfig {
    /// APIDs to emit; `None` allows every APID.
    pub allowed_apids: Option<Vec<u16>>,
    /// `Some(n)` fixes every packet at `n` total CCSDS bytes (6-byte header
    /// included) regardless of the length field; `None` sizes each packet by
    /// its length field.
    pub max_packet_length: Option<u32>,
    /// Width of the opaque wrapper prefix before each primary header.
    pub header_bytes: u32,
    /// Whether the wrapper prefix is retained in the emitted bytes.
    pub keep_header: bool,
    /// Width of the opaque wrapper postfix after each packet.
    pub footer_bytes: u32,
    /// Whether the wrapper postfix is retained in the emitted bytes.
    pub keep_footer: bool,
    /// Whether the 16-bit words of the primary header arrive byte-swapped.
    pub little_endian_header: bool,
}

impl CcsdsParserConfig {
    /// A fixed packet size must cover at least the 6-byte primary header.
    pub open spec fn wf(self) -> bool {
        match self.max_packet_length {
            Option::Some(m) => m >= 6,
            Option::None => true,
        }
    }

    /// Whether a packet with this APID is emitted rather than dropped.
    pub open spec fn spec_apid_allowed(self, apid: u16) -> bool {
        match self.allowed_apids {
            Option::Some(v) => v@.contains(apid),
            Option::None => true,
        }
    }

    /// Bytes of packet data following the 6 header bytes, for a packet whose
    /// length field is `lf`.
    pub open spec fn spec_data_len(self, lf: int) -> int {
        match self.max_packet_length {
            Option::Some(m) => if m >= 6 {
                m - 6
            } else {
                0
            },
            Option::None => lf + 1,
        }
    }

    /// Fewest buffered bytes that could hold a whole wrapped packet.
    pub open spec fn spec_need(self) -> int {
        self.header_bytes + 6 + self.footer_bytes
    }

    /// Most bytes a single wrapped packet can occupy under this
    /// configuration: the wrapper and header plus the largest data portion,
    /// which the length field caps at 65536 in variable mode.
    pub open spec fn spec_max_total(self) -> int {
        self.spec_need() + self.spec_data_len(0xFFFF)
    }
}

impl Default for CcsdsParserConfig {
    /// Variable-size packets, no wrapper, no filtering, big-endian header.
    fn default() -> (r: Self)
        ensures
            r.allowed_apids is None,
            r.max_packet_length is None,
            r.header_bytes == 0,
            !r.keep_header,
            r.footer_bytes == 0,
            !r.keep_footer,
            !r.little_endian_header,
            r.wf(),
    {
        CcsdsParserConfig {
            allowed_apids: Option::None,
            max_packet_length: Option::None,
            header_bytes: 0,
            keep_header: false,
            footer_bytes: 0,
            keep_footer: false,
            little_endian_header: false,
        }
    }
}

/// The primary header of the wrapped packet at the front of `s`.
pub open spec fn wrapped_header(cfg: CcsdsParserConfig, s: Seq<u8>) -> PrimaryHeader
    recommends
        s.len() >= cfg.header_bytes + 6,
{
    spec_header(
        s.subrange(cfg.header_bytes as int, cfg.header_bytes as int + 6),
        cfg.little_endian_header,
    )
}

/// The bytes emitted for the wrapped packet at the front of `s`, whose data
/// portion is `data` bytes: the prefix if retained, always the header and
/// data, and the postfix if retained.
pub open spec fn spec_output(cfg: CcsdsParserConfig, s: Seq<u8>, data: int) -> Seq<u8>
    recommends
        0 <= data,
        cfg.header_bytes + 6 + data + cfg.footer_bytes <= s.len(),
{
    let hb = cfg.header_bytes as int;
    let fb = cfg.footer_bytes as int;
    (if cfg.keep_header {
        s.subrange(0, hb)
    } else {
        Seq::<u8>::empty()
    }) + s.subrange(hb, hb + 6 + data) + (if cfg.keep_footer {
        s.subrange(hb + 6 + data, hb + 6 + data + fb)
    } else {
        Seq::<u8>::empty()
    })
}

/// What one parsing step does to the byte sequence `s`.
pub enum ParseStep {
    /// Too few bytes for a whole wrapped packet: nothing is consumed.
    NeedMore,
    /// The leading `consumed` bytes hold an allowed packet, emitted as `out`.
    Emit { out: Seq<u8>, header: PrimaryHeader, consumed: int },
    /// The leading `consumed` bytes hold a filtered-out packet.
    Discard { header: PrimaryHeader, consumed: int },
}

/// One parsing step on `s`: how many bytes the packet at the front occupies
/// and whether it is emitted, dropped, or not yet complete.
pub open spec fn parse_step(cfg: CcsdsParserConfig, s: Seq<u8>) -> ParseStep {
    if s.len() < cfg.spec_need() {
        ParseStep::NeedMore
    } else {
        let h = wrapped_header(cfg, s);
        let data = cfg.spec_data_len(h.length_field as int);
        let total = cfg.spec_need() + data;
        if s.len() < total {
            ParseStep::NeedMore
        } else if cfg.spec_apid_allowed(h.apid) {
            ParseStep::Emit { out: spec_output(cfg, s, data), header: h, consumed: total }
        } else {
            ParseStep::Discard { header: h, consumed: total }
        }
    }
}

/// One packet recovered from the stream: either emitted bytes or a dropped
/// packet's header.
pub enum ParsedItem {
    /// An emitted packet's bytes.
    Packet(Seq<u8>),
    /// The header of a packet dropped by the APID filter.
    Dropped(PrimaryHeader),
}

/// Every packet (emitted or dropped) that repeated pulls recover from `s`,
/// in stream order.
pub open spec fn parse_items(cfg: CcsdsParserConfig, s: Seq<u8>) -> Seq<ParsedItem>
    decreases s.len(),
{
    match parse_step(cfg, s) {
        ParseStep::NeedMore => Seq::<ParsedItem>::empty(),
        ParseStep::Emit { out, consumed, .. } => seq![ParsedItem::Packet(out)] + parse_items(
            cfg,
            s.skip(consumed),
        ),
        ParseStep::Discard { header, consumed } => seq![ParsedItem::Dropped(header)]
            + parse_items(cfg, s.skip(consumed)),
    }
}

/// The bytes left unconsumed after repeated pulls on `s`.
pub open spec fn parse_rest(cfg: CcsdsParserConfig, s: Seq<u8>) -> Seq<u8>
    decreases s.len(),
{
    match parse_step(cfg, s) {
        ParseStep::NeedMore => s,
        ParseStep::Emit { consumed, .. } => parse_rest(cfg, s.skip(consumed)),
        ParseStep::Discard { consumed, .. } => parse_rest(cfg, s.skip(consumed)),
    }
}

/// One packet as carried through the pipeline: the decoded primary header
/// and the emitted bytes (which include whatever wrapper bytes the parser
/// was configured to keep).
#[derive(Clone, Debug)]
pub struct Packet {
    /// The packet's decoded primary header.
    pub header: PrimaryHeader,
    /// The packet's emitted bytes.
    pub bytes: Vec<u8>,
}

/// The result of one `pull`.
#[derive(Debug)]
pub enum PullResult {
    /// A complete allowed packet: its emitted bytes and decoded header.
    Packet { bytes: Vec<u8>, header: PrimaryHeader },
    /// A complete packet whose APID the filter rejects; only its header is
    /// reported.
    Dropped(PrimaryHeader),
    /// The buffer does not yet hold a whole wrapped packet.
    NeedMore,
}

/// A stateful byte accumulator that recovers CCSDS packets from the feed.
///
/// Its view is the sequence of buffered bytes not yet consumed by `pull`.
pub struct CcsdsParser {
    config: CcsdsParserConfig,
    bytes: Vec<u8>,
    cursor: usize,
}

impl View for CcsdsParser {
    type V = Seq<u8>;

    closed spec fn view(&self) -> Seq<u8> {
        self.bytes@.skip(self.cursor as int)
    }
}

impl CcsdsParser {
    #[verifier::type_invariant]
    spec fn type_wf(self) -> bool {
        &&& self.cursor <= self.bytes@.len()
        &&& self.config.wf()
    }

    /// The configuration the parser was constructed with.
    pub closed spec fn cfg(&self) -> CcsdsParserConfig {
        self.config
    }

    /// A parser with the given configuration and an empty buffer.
    pub fn with_config(config: CcsdsParserConfig) -> (r: Self)
        requires
            config.wf(),
        ensures
            r.cfg() == config,
            r@ == Seq::<u8>::empty(),
    {
        let r = CcsdsParser { config, bytes: Vec::new(), cursor: 0 };
        proof {
            assert(r@ =~= Seq::<u8>::empty());
        }
        r
    }

    /// Extend the buffer with freshly read bytes; already-consumed bytes are
    /// compacted away. Because the view is the concatenation of everything
    /// appended (minus what `pull` consumed), the parse is the same however
    /// the feed is chunked.
    pub fn append(&mut self, data: &[u8])
        ensures
            final(self).cfg() == old(self).cfg(),
            final(self)@ == old(self)@ + data@,
    {
        proof {
            use_type_invariant(&*self);
        }
        let ghost s = self@;
        let mut nb: Vec<u8> = Vec::new();
        let len = self.bytes.len();
        extend_range(&mut nb, self.bytes.as_slice(), self.cursor, len);
        extend_range(&mut nb, data, 0, data.len());
        proof {
            assert(nb@ =~= s + data@);
        }
        self.cursor = 0;
        self.bytes = nb;
        proof {
            assert(self@ =~= s + data@);
        }
    }

    /// Attempt to consume the wrapped packet at the front of the buffer.
    ///
    /// The result and the new buffer state follow [`parse_step`] exactly: on
    /// `NeedMore` nothing is consumed (so a second `pull` without an
    /// `append` returns `NeedMore` again), otherwise the packet's bytes are
    /// consumed and it is returned as emitted or dropped.
    #[verifier::rlimit(60)]
    #[verifier::spinoff_prover]
    pub fn pull(&mut self) -> (r: PullResult)
        ensures
            final(self).cfg() == old(self).cfg(),
            parse_step(old(self).cfg(), old(self)@) is NeedMore ==> {
                &&& r is NeedMore
                &&& final(self)@ == old(self)@
            },
            parse_step(old(self).cfg(), old(self)@) matches ParseStep::Emit {
                out,
                header,
                consumed,
            } ==> {
                &&& r matches PullResult::Packet { bytes, header: h } && bytes@ == out && h
                    == header
                &&& final(self)@ == old(self)@.skip(consumed)
            },
            parse_step(old(self).cfg(), old(self)@) matches ParseStep::Discard {
                header,
                consumed,
            } ==> {
                &&& r matches PullResult::Dropped(h) && h == header
                &&& final(self)@ == old(self)@.skip(consumed)
            },
    {
        proof {
            use_type_invariant(&*self);
        }
        let ghost s = self@;
        let ghost cfgg = self.cfg();
        let cur = self.cursor;
        let len = self.bytes.len();
        let avail: u64 = (len - cur) as u64;
        proof {
            assert(avail == s.len());
        }
        let hb = self.config.header_bytes;
        let fb = self.config.footer_bytes;
        let need: u64 = hb as u64 + 6u64 + fb as u64;
        if avail < need {
            return PullResult::NeedMore;
        }
        let hb_us: usize = hb as usize;
        let hoff: usize = cur + hb_us;
        let h = decode_header(self.bytes.as_slice(), hoff, self.config.little_endian_header);
        proof {
            assert(self.bytes@.subrange(hoff as int, hoff as int + 6) =~= s.subrange(
                hb as int,
                hb as int + 6,
            ));
            assert(h == wrapped_header(cfgg, s));
        }
        let data: u64 = match self.config.max_packet_length {
            Option::Some(m) => m as u64 - 6,
            Option::None => h.length_field as u64 + 1,
        };
        proof {
            assert(data == cfgg.spec_data_len(h.length_field as int));
        }
        let total: u64 = need + data;
        if avail < total {
            return PullResult::NeedMore;
        }
        let total_us: usize = total as usize;
        let allowed: bool = match &self.config.allowed_apids {
            Option::Some(v) => contains_apid(v, h.apid),
            Option::None => true,
        };
        proof {
            assert(allowed == cfgg.spec_apid_allowed(h.apid));
        }
        if !allowed {
            self.cursor = cur + total_us;
            proof {
                assert(self@ =~= s.skip(total as int));
            }
            return PullResult::Dropped(h);
        }
        let data_us: usize = data as usize;
        let mut outb: Vec<u8> = Vec::new();
        if self.config.keep_header {
            extend_range(&mut outb, self.bytes.as_slice(), cur, cur + hb_us);
        }
        extend_range(&mut outb, self.bytes.as_slice(), cur + hb_us, cur + hb_us + 6 + data_us);
        if self.config.keep_footer {
            extend_range(
                &mut outb,
                self.bytes.as_slice(),
                cur + hb_us + 6 + data_us,
                cur + total_us,
            );
        }
        proof {
            let hbi = hb as int;
            let fbi = fb as int;
            let di = data as int;
            assert(self.bytes@.subrange(cur as int, cur + hbi) =~= s.subrange(0, hbi));
            assert(self.bytes@.subrange(cur + hbi, cur + hbi + 6 + di) =~= s.subrange(
                hbi,
                hbi + 6 + di,
            ));
            assert(self.bytes@.subrange(cur + hbi + 6 + di, cur + total as int) =~= s.subrange(
                hbi + 6 + di,
                hbi + 6 + di + fbi,
            ));
            assert(outb@ =~= spec_output(cfgg, s, di));
        }
        self.cursor = cur + total_us;
        proof {
            assert(self@ =~= s.skip(total as int));
        }
        PullResult::Packet { bytes: outb, header: h }
    }

    /// Pull until the buffer holds no whole packet: the results are exactly
    /// the items [`parse_items`] recovers from the buffered bytes, in
    /// order, and exactly the unconsumed tail [`parse_rest`] stays behind.
    pub fn pull_all(&mut self) -> (r: Vec<PullResult>)
        ensures
            final(self).cfg() == old(self).cfg(),
            final(self)@ == parse_rest(old(self).cfg(), old(self)@),
            r@.len() == parse_items(old(self).cfg(), old(self)@).len(),
            forall|i: int|
                #![trigger r@[i]]
                0 <= i < r@.len() ==> {
                    &&& (parse_items(old(self).cfg(), old(self)@)[i] matches ParsedItem::Packet(
                        out,
                    ) ==> (r@[i] matches PullResult::Packet { bytes, header } && bytes@ == out))
                    &&& (parse_items(old(self).cfg(), old(self)@)[i] matches ParsedItem::Dropped(h)
                        ==> (r@[i] matches PullResult::Dropped(h2) && h2 == h))
                },
    {
        let ghost cfgg = self.cfg();
        let ghost s0 = self@;
        let ghost all = parse_items(cfgg, s0);
        let mut results: Vec<PullResult> = Vec::new();
        let ghost done: Seq<ParsedItem> = Seq::empty();
        let mut done = Ghost(done);
        loop
            invariant
                cfgg == old(self).cfg(),
                s0 == old(self)@,
                self.cfg() == cfgg,
                done@.len() == results@.len(),
                parse_items(cfgg, s0) == done@ + parse_items(cfgg, self@),
                parse_rest(cfgg, s0) == parse_rest(cfgg, self@),
                forall|i: int|
                    #![trigger results@[i]]
                    0 <= i < done@.len() ==> {
                        &&& (done@[i] matches ParsedItem::Packet(out) ==> (
                        results@[i] matches PullResult::Packet { bytes, header } && bytes@ == out))
                        &&& (done@[i] matches ParsedItem::Dropped(h) ==> (
                        results@[i] matches PullResult::Dropped(h2) && h2 == h))
                    },
            decreases self@.len(),
        {
            let ghost pre = self@;
            proof {
                lemma_step_consumes(cfgg, pre);
            }
            let pulled = self.pull();
            match pulled {
                PullResult::NeedMore => {
                    proof {
                        assert(parse_items(cfgg, pre) =~= Seq::<ParsedItem>::empty());
                        assert(parse_items(cfgg, s0) =~= done@);
                    }
                    return results;
                },
                PullResult::Packet { bytes, header } => {
                    proof {
                        done@ = done@ + seq![ParsedItem::Packet(bytes@)];
                        assert(parse_items(cfgg, s0) =~= done@ + parse_items(cfgg, self@));
                    }
                    results.push(PullResult::Packet { bytes, header });
                },
                PullResult::Dropped(h) => {
                    proof {
                        done@ = done@ + seq![ParsedItem::Dropped(h)];
                        assert(parse_items(cfgg, s0) =~= done@ + parse_items(cfgg, self@));
                    }
                    results.push(PullResult::Dropped(h));
                },
            }
        }
    }
}

/// A step that consumes a packet consumes at least its 6 header bytes and
/// never more than the buffer holds.
proof fn lemma_step_consumes(cfg: CcsdsParserConfig, s: Seq<u8>)
    ensures
        parse_step(cfg, s) matches ParseStep::Emit { consumed, .. } ==> 0 < consumed <= s.len(),
        parse_step(cfg, s) matches ParseStep::Discard { consumed, .. } ==> 0 < consumed <= s.len(),
{
}

/// A sequence that holds exactly one whole wrapped packet under `cfg`: the
/// prefix, the 6 header bytes, the data sized by the configuration, and the
/// postfix, with nothing to spare.
pub open spec fn wf_wrapped(cfg: CcsdsParserConfig, w: Seq<u8>) -> bool {
    w.len() == cfg.spec_need() + cfg.spec_data_len(wrapped_header(cfg, w).length_field as int)
}

/// The item the parser recovers from the single wrapped packet `w`: its
/// output bytes if the APID is allowed, else its header as dropped.
pub open spec fn spec_item_of(cfg: CcsdsParserConfig, w: Seq<u8>) -> ParsedItem {
    let h = wrapped_header(cfg, w);
    if cfg.spec_apid_allowed(h.apid) {
        ParsedItem::Packet(spec_output(cfg, w, cfg.spec_data_len(h.length_field as int)))
    } else {
        ParsedItem::Dropped(h)
    }
}

/// The concatenation of all sequences in `ws`, in order.
pub open spec fn concat_all(ws: Seq<Seq<u8>>) -> Seq<u8>
    decreases ws.len(),
{
    if ws.len() == 0 {
        Seq::<u8>::empty()
    } else {
        ws[0] + concat_all(ws.drop_first())
    }
}

/// One step on a stream that begins with a whole wrapped packet consumes
/// exactly that packet and leaves the rest untouched.
proof fn lemma_step_on_prefix(cfg: CcsdsParserConfig, w: Seq<u8>, rest: Seq<u8>)
    requires
        wf_wrapped(cfg, w),
    ensures
        parse_step(cfg, w + rest) == (if cfg.spec_apid_allowed(wrapped_header(cfg, w).apid) {
            ParseStep::Emit {
                out: spec_output(
                    cfg,
                    w,
                    cfg.spec_data_len(wrapped_header(cfg, w).length_field as int),
                ),
                header: wrapped_header(cfg, w),
                consumed: w.len() as int,
            }
        } else {
            ParseStep::Discard { header: wrapped_header(cfg, w), consumed: w.len() as int }
        }),
        (w + rest).skip(w.len() as int) == rest,
{
    let s = w + rest;
    let hb = cfg.header_bytes as int;
    let fb = cfg.footer_bytes as int;
    assert(s.subrange(hb, hb + 6) =~= w.subrange(hb, hb + 6));
    let h = wrapped_header(cfg, w);
    let data = cfg.spec_data_len(h.length_field as int);
    assert(s.subrange(0, hb) =~= w.subrange(0, hb));
    assert(s.subrange(hb, hb + 6 + data) =~= w.subrange(hb, hb + 6 + data));
    assert(s.subrange(hb + 6 + data, hb + 6 + data + fb) =~= w.subrange(
        hb + 6 + data,
        hb + 6 + data + fb,
    ));
    assert(spec_output(cfg, s, data) == spec_output(cfg, w, data));
    assert(s.skip(w.len() as int) =~= rest);
}

/// APID filter law: draining a stream of whole wrapped packets yields one
/// item per packet, in order — the packet's output bytes where its APID is
/// allowed, and one dropped-header item where it is not — and consumes the
/// stream completely. With an allow-list, the emitted packets are therefore
/// exactly the subsequence whose APIDs the list holds.
pub proof fn lemma_apid_filter(cfg: CcsdsParserConfig, ws: Seq<Seq<u8>>)
    requires
        forall|i: int| 0 <= i < ws.len() ==> wf_wrapped(cfg, #[trigger] ws[i]),
    ensures
        parse_items(cfg, concat_all(ws)) == ws.map_values(|w: Seq<u8>| spec_item_of(cfg, w)),
        parse_rest(cfg, concat_all(ws)) == Seq::<u8>::empty(),
    decreases ws.len(),
{
    let f = |w: Seq<u8>| spec_item_of(cfg, w);
    if ws.len() == 0 {
        assert(parse_step(cfg, concat_all(ws)) is NeedMore);
        assert(parse_items(cfg, concat_all(ws)) =~= ws.map_values(f));
    } else {
        let w = ws[0];
        let tail = ws.drop_first();
        assert(wf_wrapped(cfg, w));
        assert forall|i: int| 0 <= i < tail.len() implies wf_wrapped(cfg, #[trigger] tail[i]) by {
            assert(tail[i] == ws[i + 1]);
        }
        lemma_step_on_prefix(cfg, w, concat_all(tail));
        lemma_apid_filter(cfg, tail);
        assert(parse_items(cfg, concat_all(ws)) =~= seq![f(w)] + tail.map_values(f));
        assert(ws.map_values(f) =~= seq![f(w)] + tail.map_values(f));
    }
}

/// Round-trip law: a stream formed by concatenating whole wrapped packets
/// whose APIDs are all allowed drains to exactly those packets in order,
/// each reduced to its configured output (prefix and postfix kept or
/// stripped byte-for-byte), with no bytes left over. Together with
/// `append`'s contract — the buffer view is the concatenation of everything
/// appended — the drained items do not depend on how the stream was chunked
/// into `append` calls.
pub proof fn lemma_parser_round_trip(cfg: CcsdsParserConfig, ws: Seq<Seq<u8>>)
    requires
        forall|i: int| 0 <= i < ws.len() ==> wf_wrapped(cfg, #[trigger] ws[i]),
        forall|i: int|
            0 <= i < ws.len() ==> cfg.spec_apid_allowed(wrapped_header(cfg, #[trigger] ws[i]).apid),
    ensures
        parse_items(cfg, concat_all(ws)) == ws.map_values(
            |w: Seq<u8>|
                ParsedItem::Packet(
                    spec_output(cfg, w, cfg.spec_data_len(wrapped_header(cfg, w).length_field as int)),
                ),
        ),
        parse_rest(cfg, concat_all(ws)) == Seq::<u8>::empty(),
{
    lemma_apid_filter(cfg, ws);
    assert(ws.map_values(|w: Seq<u8>| spec_item_of(cfg, w)) =~= ws.map_values(
        |w: Seq<u8>|
            ParsedItem::Packet(
                spec_output(cfg, w, cfg.spec_data_len(wrapped_header(cfg, w).length_field as int)),
            ),
    ));
}

/// Idempotent pull on an incomplete buffer: when one step yields nothing,
/// draining yields nothing and leaves every byte in place. Since `pull`
/// returns `NeedMore` exactly in this case and then leaves the buffer
/// unchanged, a second `pull` without an `append` returns `NeedMore` again.
pub proof fn lemma_pull_on_empty_idempotent(cfg: CcsdsParserConfig, s: Seq<u8>)
    requires
        parse_step(cfg, s) is NeedMore,
    ensures
        parse_items(cfg, s) == Seq::<ParsedItem>::empty(),
        parse_rest(cfg, s) == s,
{
}

/// Progress law: once the buffer holds as many bytes as the largest wrapped
/// packet can occupy, a step always consumes a packet — the parser cannot
/// sit on a full buffer, so a bounded buffer never overflows without
/// yielding.
pub proof fn lemma_parser_progress(cfg: CcsdsParserConfig, s: Seq<u8>)
    requires
        s.len() >= cfg.spec_max_total(),
    ensures
        !(parse_step(cfg, s) is NeedMore),
{
}

/// A step that consumes a packet is unchanged by bytes appended behind it:
/// the packet's bytes were already all there.
proof fn lemma_step_extends(cfg: CcsdsParserConfig, s: Seq<u8>, t: Seq<u8>)
    requires
        !(parse_step(cfg, s) is NeedMore),
    ensures
        parse_step(cfg, s + t) == parse_step(cfg, s),
        parse_step(cfg, s) matches ParseStep::Emit { consumed, .. } ==> (s + t).skip(consumed)
            == s.skip(consumed) + t,
        parse_step(cfg, s) matches ParseStep::Discard { consumed, .. } ==> (s + t).skip(consumed)
            == s.skip(consumed) + t,
{
    let u = s + t;
    let hb = cfg.header_bytes as int;
    let fb = cfg.footer_bytes as int;
    assert(u.subrange(hb, hb + 6) =~= s.subrange(hb, hb + 6));
    let h = wrapped_header(cfg, s);
    let data = cfg.spec_data_len(h.length_field as int);
    let total = cfg.spec_need() + data;
    assert(u.subrange(0, hb) =~= s.subrange(0, hb));
    assert(u.subrange(hb, hb + 6 + data) =~= s.subrange(hb, hb + 6 + data));
    assert(u.subrange(hb + 6 + data, hb + 6 + data + fb) =~= s.subrange(
        hb + 6 + data,
        hb + 6 + data + fb,
    ));
    assert(spec_output(cfg, u, data) == spec_output(cfg, s, data));
    assert(u.skip(total) =~= s.skip(total) + t);
}

/// Incremental parse law: bytes may arrive in any chunking. Draining after
/// an append continues exactly where the previous drain stopped — the items
/// recovered from `s + t` are the items of `s` followed by the items of
/// `t` appended to what the drain of `s` left behind, and likewise for the
/// final remainder. Draining between appends therefore yields, in total,
/// the same items as draining once at the end, for every byte stream.
pub proof fn lemma_parse_incremental(cfg: CcsdsParserConfig, s: Seq<u8>, t: Seq<u8>)
    ensures
        parse_items(cfg, s + t) == parse_items(cfg, s) + parse_items(
            cfg,
            parse_rest(cfg, s) + t,
        ),
        parse_rest(cfg, s + t) == parse_rest(cfg, parse_rest(cfg, s) + t),
    decreases s.len(),
{
    match parse_step(cfg, s) {
        ParseStep::NeedMore => {
            assert(parse_items(cfg, s + t) =~= parse_items(cfg, s) + parse_items(
                cfg,
                parse_rest(cfg, s) + t,
            ));
        },
        ParseStep::Emit { consumed, .. } => {
            lemma_step_consumes(cfg, s);
            lemma_step_extends(cfg, s, t);
            lemma_parse_incremental(cfg, s.skip(consumed), t);
            assert(parse_items(cfg, s + t) =~= parse_items(cfg, s) + parse_items(
                cfg,
                parse_rest(cfg, s) + t,
            ));
        },
        ParseStep::Discard { consumed, .. } => {
            lemma_step_consumes(cfg, s);
            lemma_step_extends(cfg, s, t);
            lemma_parse_incremental(cfg, s.skip(consumed), t);
            assert(parse_items(cfg, s + t) =~= parse_items(cfg, s) + parse_items(
                cfg,
                parse_rest(cfg, s) + t,
            ));
        },
    }
}

/// Bounded buffer law: what a drain leaves behind is always smaller than
/// one maximum wrapped packet. Since `pull_all` leaves exactly
/// [`parse_rest`] buffered, the parser's memory stays bounded by that
/// maximum plus whatever one `append` brings in.
pub proof fn lemma_rest_bounded(cfg: CcsdsParserConfig, s: Seq<u8>)
    ensures
        parse_rest(cfg, s).len() < cfg.spec_max_total(),
    decreases s.len(),
{
    match parse_step(cfg, s) {
        ParseStep::NeedMore => {
        },
        ParseStep::Emit { consumed, .. } => {
            lemma_rest_bounded(cfg, s.skip(consumed));
        },
        ParseStep::Discard { consumed, .. } => {
            lemma_rest_bounded(cfg, s.skip(consumed));
        },
    }
}

/// Whether `list` contains `apid`.
pub fn contains_apid(list: &Vec<u16>, apid: u16) -> (r: bool)
    ensures
        r == list@.contains(apid),
{
    let mut i: usize = 0;
    while i < list.len()
        invariant
            i <= list@.len(),
            forall|j: int| 0 <= j < i ==> list@[j] != apid,
        decreases list@.len() - i,
    {
        if list[i] == apid {
            return true;
        }
        i += 1;
    }
    false
}

/// Append `src[start..end]` to `dst`.
pub(crate) fn extend_range(dst: &mut Vec<u8>, src: &[u8], start: usize, end: usize)
    requires
        start <= end,
        end <= src@.len(),
    ensures
        final(dst)@ == old(dst)@ + src@.subrange(start as int, end as int),
{
    let ghost base = dst@;
    let mut i: usize = start;
    while i < end
        invariant
            start <= i <= end,
            end <= src@.len(),
            dst@ == base + src@.subrange(start as int, i as int),
        decreases end - i,
    {
        dst.push(src[i]);
        proof {
            assert(dst@ =~= base + src@.subrange(start as int, i as int + 1));
        }
        i += 1;
    }
}

} // verus!
