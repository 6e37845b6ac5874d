//! The target descriptor: the connection information a target publishes
//! after setup, which an initiator consumes to attach that target.
//!
//! A descriptor is a value: copyable, serialisable to and from text,
//! and independent of the target's liveness. An initiator may hold a
//! stale descriptor; attaching through it simply never completes. The
//! text encoding is the only wire format this crate owns. It is
//! designed for out-of-band exchange (copy and paste, a signalling
//! channel): a fixed magic, then each field in a fixed-width
//! hexadecimal or length-prefixed form.

use vstd::prelude::*;

use crate::codec::from_hex;
use crate::codec::lemma_hex_round_trip;
use crate::codec::lemma_pow16_16;
use crate::codec::lemma_to_hex_len;
use crate::codec::parse_hex16;
use crate::codec::push_hex;
use crate::codec::str_eq;
use crate::codec::to_hex;
use crate::error::Error;
use crate::provider::Provider;
use crate::region::Region;

verus! {

/// The abstract state of a [`TargetInfo`].
pub struct TargetInfoView {
    /// The target session's routing key.
    pub key: u64,
    /// The transport the target listens on.
    pub provider: Provider,
    /// The node part of the target's bound address, if fixed.
    pub node: Option<Seq<char>>,
    /// The service part of the target's bound address, if fixed.
    pub service: Option<Seq<char>>,
    /// The registered memory spans inbound transfers may write.
    pub regions: Seq<Region>,
}

impl TargetInfoView {
    /// Every descriptor a target actually publishes satisfies this:
    /// the variable-length fields fit their 64-bit length prefixes.
    pub open spec fn wf(self) -> bool {
        &&& (self.node matches Some(t) ==> t.len() <= u64::MAX)
        &&& (self.service matches Some(t) ==> t.len() <= u64::MAX)
        &&& self.regions.len() <= u64::MAX
    }
}

/// The connection descriptor of one target: its routing key, provider,
/// bound address and registered region spans.
#[derive(Clone, PartialEq, Eq, Debug)]
pub struct TargetInfo {
    key: u64,
    provider: Provider,
    node: Option<String>,
    service: Option<String>,
    regions: Vec<Region>,
}

/// The abstract value of an optional owned text.
pub open spec fn opt_string_view(o: Option<String>) -> Option<Seq<char>> {
    match o {
        Some(t) => Some(t@),
        None => None,
    }
}

impl View for TargetInfo {
    type V = TargetInfoView;

    closed spec fn view(&self) -> TargetInfoView {
        TargetInfoView {
            key: self.key,
            provider: self.provider,
            node: opt_string_view(self.node),
            service: opt_string_view(self.service),
            regions: self.regions@,
        }
    }
}

/// The marker the text encoding opens with.
pub open spec fn descriptor_magic() -> Seq<char> {
    "mxlti1"@
}

/// The one-character code of a provider inside a descriptor.
pub open spec fn provider_code(p: Provider) -> char {
    match p {
        Provider::Auto => 'a',
        Provider::Tcp => 't',
        Provider::Verbs => 'v',
        Provider::Efa => 'e',
        Provider::Shm => 's',
    }
}

/// The provider a one-character code denotes, if any.
pub open spec fn provider_of_code(c: char) -> Option<Provider> {
    if c == 'a' {
        Some(Provider::Auto)
    } else if c == 't' {
        Some(Provider::Tcp)
    } else if c == 'v' {
        Some(Provider::Verbs)
    } else if c == 'e' {
        Some(Provider::Efa)
    } else if c == 's' {
        Some(Provider::Shm)
    } else {
        None
    }
}

/// The provider codes are pairwise distinct.
pub proof fn lemma_provider_code_round_trip(p: Provider)
    ensures
        provider_of_code(provider_code(p)) == Some(p),
{
}

/// The encoding of an optional text: `-` for absent, or `+`, a 16-digit
/// length, and the text itself.
pub open spec fn encode_opt_text(o: Option<Seq<char>>) -> Seq<char> {
    match o {
        None => seq!['-'],
        Some(t) => seq!['+'] + to_hex(t.len() as int, 16) + t,
    }
}

/// The encoding of one region span: its base and length, 16 digits each.
pub open spec fn encode_region(r: Region) -> Seq<char> {
    to_hex(r.base as int, 16) + to_hex(r.len as int, 16)
}

/// The encoding of a list of region spans, in order.
pub open spec fn encode_regions_list(rs: Seq<Region>) -> Seq<char>
    decreases rs.len(),
{
    if rs.len() == 0 {
        Seq::empty()
    } else {
        encode_region(rs[0]) + encode_regions_list(rs.drop_first())
    }
}

/// The complete text encoding of a descriptor.
pub open spec fn encode_info(d: TargetInfoView) -> Seq<char> {
    descriptor_magic() + to_hex(d.key as int, 16) + seq![provider_code(d.provider)]
        + encode_opt_text(d.node) + encode_opt_text(d.service) + to_hex(
        d.regions.len() as int,
        16,
    ) + encode_regions_list(d.regions)
}

/// Parses an optional text at `pos`: the field and the position after
/// it, or `None` if the text is not a well-formed field.
pub open spec fn parse_opt_text(s: Seq<char>, pos: int) -> Option<(Option<Seq<char>>, int)> {
    if pos < s.len() && s[pos] == '-' {
        Some((None, pos + 1))
    } else if pos < s.len() && s[pos] == '+' && pos + 17 <= s.len() {
        match from_hex(s.subrange(pos + 1, pos + 17)) {
            None => None,
            Some(n) => if pos + 17 + n <= s.len() {
                Some((Some(s.subrange(pos + 17, pos + 17 + n)), pos + 17 + n))
            } else {
                None
            },
        }
    } else {
        None
    }
}

/// Parses exactly `n` region spans at `pos`, which must run to the end
/// of the text.
pub open spec fn parse_regions_list(s: Seq<char>, pos: int, n: int) -> Option<Seq<Region>>
    decreases n,
{
    if n <= 0 {
        if pos == s.len() {
            Some(Seq::empty())
        } else {
            None
        }
    } else if pos + 32 <= s.len() {
        match from_hex(s.subrange(pos, pos + 16)) {
            None => None,
            Some(base) => match from_hex(s.subrange(pos + 16, pos + 32)) {
                None => None,
                Some(len) => match parse_regions_list(s, pos + 32, n - 1) {
                    None => None,
                    Some(rest) => Some(
                        seq![Region { base: base as u64, len: len as u64 }] + rest,
                    ),
                },
            },
        }
    } else {
        None
    }
}

/// Parses a complete descriptor, accepting exactly the canonical
/// encodings.
pub open spec fn parse_info(s: Seq<char>) -> Option<TargetInfoView> {
    if s.len() < 23 {
        None
    } else if s.subrange(0, 6) != descriptor_magic() {
        None
    } else {
        match from_hex(s.subrange(6, 22)) {
            None => None,
            Some(key) => match provider_of_code(s[22]) {
                None => None,
                Some(provider) => match parse_opt_text(s, 23) {
                    None => None,
                    Some((node, node_end)) => match parse_opt_text(s, node_end) {
                        None => None,
                        Some((service, service_end)) => if service_end + 16 <= s.len() {
                            match from_hex(s.subrange(service_end, service_end + 16)) {
                                None => None,
                                Some(count) => match parse_regions_list(s, service_end + 16, count) {
                                    None => None,
                                    Some(regions) => Some(
                                        TargetInfoView {
                                            key: key as u64,
                                            provider,
                                            node,
                                            service,
                                            regions,
                                        },
                                    ),
                                },
                            }
                        } else {
                            None
                        },
                    },
                },
            },
        }
    }
}

/// The length of an encoded optional text.
pub proof fn lemma_encode_opt_text_len(o: Option<Seq<char>>)
    ensures
        encode_opt_text(o).len() == (match o {
            None => 1int,
            Some(t) => 17 + t.len() as int,
        }),
{
    match o {
        None => {},
        Some(t) => {
            lemma_to_hex_len(t.len() as int, 16);
        },
    }
}

/// The length of an encoded region list.
pub proof fn lemma_encode_regions_len(rs: Seq<Region>)
    ensures
        encode_regions_list(rs).len() == 32 * rs.len(),
    decreases rs.len(),
{
    if rs.len() > 0 {
        lemma_to_hex_len(rs[0].base as int, 16);
        lemma_to_hex_len(rs[0].len as int, 16);
        lemma_encode_regions_len(rs.drop_first());
    }
}

/// An encoded region list decomposes at its last element as well as at
/// its first.
pub proof fn lemma_encode_regions_snoc(rs: Seq<Region>)
    requires
        rs.len() > 0,
    ensures
        encode_regions_list(rs) == encode_regions_list(rs.drop_last()) + encode_region(rs.last()),
    decreases rs.len(),
{
    if rs.len() == 1 {
        assert(rs.drop_first() =~= Seq::<Region>::empty());
        assert(rs.drop_last() =~= Seq::<Region>::empty());
        assert(encode_regions_list(rs) =~= encode_regions_list(rs.drop_last()) + encode_region(
            rs.last(),
        ));
    } else {
        let tail = rs.drop_first();
        lemma_encode_regions_snoc(tail);
        assert(tail.drop_last() =~= rs.drop_last().drop_first());
        assert(tail.last() == rs.last());
        assert(rs.drop_last()[0] == rs[0]);
        assert(rs.drop_last().len() > 0);
        assert(encode_regions_list(rs.drop_last()) == encode_region(rs[0]) + encode_regions_list(
            rs.drop_last().drop_first(),
        ));
        assert(encode_regions_list(rs) =~= encode_regions_list(rs.drop_last()) + encode_region(
            rs.last(),
        ));
    }
}

/// The one-character code of a provider, as text.
fn provider_code_str(p: Provider) -> (r: &'static str)
    ensures
        r@.len() == 1,
        r@[0] == provider_code(p),
{
    proof {
        reveal_strlit("a");
        reveal_strlit("t");
        reveal_strlit("v");
        reveal_strlit("e");
        reveal_strlit("s");
    }
    match p {
        Provider::Auto => "a",
        Provider::Tcp => "t",
        Provider::Verbs => "v",
        Provider::Efa => "e",
        Provider::Shm => "s",
    }
}

/// Appends the encoding of an optional text field.
fn push_opt_text(out: &mut String, o: &Option<String>)
    ensures
        final(out)@ == old(out)@ + encode_opt_text(opt_string_view(*o)),
        o matches Some(t) ==> t@.len() <= usize::MAX,
{
    match o {
        None => {
            proof {
                reveal_strlit("-");
            }
            out.append("-");
            proof {
                assert(final(out)@ =~= old(out)@ + encode_opt_text(None));
            }
        },
        Some(t) => {
            proof {
                reveal_strlit("+");
            }
            out.append("+");
            let n = t.as_str().unicode_len();
            push_hex(out, n as u64, 16);
            out.append(t.as_str());
            proof {
                assert(final(out)@ =~= old(out)@ + encode_opt_text(Some(t@)));
            }
        },
    }
}

impl TargetInfo {
    /// Assembles a descriptor from its parts.
    pub(crate) fn assemble(
        key: u64,
        provider: Provider,
        node: Option<String>,
        service: Option<String>,
        regions: Vec<Region>,
    ) -> (r: TargetInfo)
        ensures
            r@ == (TargetInfoView {
                key,
                provider,
                node: opt_string_view(node),
                service: opt_string_view(service),
                regions: regions@,
            }),
    {
        TargetInfo { key, provider, node, service, regions }
    }

    /// The target session's routing key.
    pub fn key(&self) -> (r: u64)
        ensures
            r == self@.key,
    {
        self.key
    }

    /// The transport the target listens on.
    pub fn provider(&self) -> (r: Provider)
        ensures
            r == self@.provider,
    {
        self.provider
    }

    /// Serialises the descriptor into its canonical text form. Every
    /// descriptor held at run time also fits its length prefixes, so
    /// [`lemma_descriptor_round_trip`] applies to the result.
    pub fn to_string(&self) -> (r: String)
        ensures
            r@ == encode_info(self@),
            self@.wf(),
    {
        proof {
            reveal_strlit("mxlti1");
        }
        let mut out = String::from_str("mxlti1");
        push_hex(&mut out, self.key, 16);
        out.append(provider_code_str(self.provider));
        proof {
            assert(out@ =~= descriptor_magic() + to_hex(self@.key as int, 16) + seq![
                provider_code(self@.provider),
            ]);
        }
        push_opt_text(&mut out, &self.node);
        push_opt_text(&mut out, &self.service);
        let count = self.regions.len();
        push_hex(&mut out, count as u64, 16);
        let ghost head = descriptor_magic() + to_hex(self@.key as int, 16) + seq![
            provider_code(self@.provider),
        ] + encode_opt_text(self@.node) + encode_opt_text(self@.service) + to_hex(
            self@.regions.len() as int,
            16,
        );
        proof {
            assert(out@ =~= head);
        }
        let mut i: usize = 0;
        while i < count
            invariant
                i <= count,
                count == self@.regions.len(),
                out@ == head + encode_regions_list(self@.regions.take(i as int)),
            decreases count - i,
        {
            let ghost prefix = self@.regions.take(i as int);
            push_hex(&mut out, self.regions[i].base, 16);
            push_hex(&mut out, self.regions[i].len, 16);
            proof {
                let cur = self@.regions.take(i as int + 1);
                assert(cur.drop_last() =~= prefix);
                assert(cur.last() == self@.regions[i as int]);
                lemma_encode_regions_snoc(cur);
                assert(out@ =~= head + encode_regions_list(cur));
            }
            i += 1;
        }
        proof {
            assert(self@.regions.take(count as int) =~= self@.regions);
            assert(out@ =~= encode_info(self@));
        }
        out
    }
}

/// A region list only parses when it covers exactly the rest of the
/// text.
proof fn lemma_parse_regions_len(s: Seq<char>, pos: int, n: int)
    requires
        n >= 0,
        parse_regions_list(s, pos, n) is Some,
    ensures
        s.len() - pos == 32 * n,
    decreases n,
{
    if n > 0 {
        lemma_parse_regions_len(s, pos + 32, n - 1);
    }
}

/// The provider a one-character code denotes.
fn provider_of_code_exec(c: char) -> (r: Option<Provider>)
    ensures
        r == provider_of_code(c),
{
    match c {
        'a' => Some(Provider::Auto),
        't' => Some(Provider::Tcp),
        'v' => Some(Provider::Verbs),
        'e' => Some(Provider::Efa),
        's' => Some(Provider::Shm),
        _ => None,
    }
}

/// Parses one optional text field at `pos`.
fn parse_opt_text_exec(s: &str, pos: usize, l: usize) -> (r: Result<(Option<String>, usize), Error>)
    requires
        l == s@.len(),
        pos <= l,
    ensures
        match parse_opt_text(s@, pos as int) {
            Some(v) => r matches Ok(p) && opt_string_view(p.0) == v.0 && p.1 as int == v.1 && pos
                < p.1 <= l,
            None => r == Result::<(Option<String>, usize), Error>::Err(Error::MalformedDescriptor),
        },
{
    if pos >= l {
        return Err(Error::MalformedDescriptor);
    }
    let c = s.get_char(pos);
    if c == '-' {
        return Ok((None, pos + 1));
    }
    if c != '+' {
        return Err(Error::MalformedDescriptor);
    }
    if l - pos < 17 {
        return Err(Error::MalformedDescriptor);
    }
    let n64 = match parse_hex16(s, pos + 1) {
        None => {
            return Err(Error::MalformedDescriptor);
        },
        Some(v) => v,
    };
    let after = pos + 17;
    if n64 > (l - after) as u64 {
        return Err(Error::MalformedDescriptor);
    }
    let n = n64 as usize;
    let t = s.substring_char(after, after + n);
    Ok((Some(t.to_owned()), after + n))
}

impl TargetInfo {
    /// Parses a descriptor from its text form. Fails with
    /// `MalformedDescriptor` on any text that is not a canonical
    /// encoding.
    #[verifier::loop_isolation(false)]
    pub fn from_str(s: &str) -> (r: Result<TargetInfo, Error>)
        ensures
            match parse_info(s@) {
                Some(dv) => r matches Ok(d) && d@ == dv,
                None => r == Result::<TargetInfo, Error>::Err(Error::MalformedDescriptor),
            },
    {
        let l = s.unicode_len();
        if l < 23 {
            return Err(Error::MalformedDescriptor);
        }
        let m = s.substring_char(0, 6);
        if !str_eq(m, "mxlti1") {
            return Err(Error::MalformedDescriptor);
        }
        let key = match parse_hex16(s, 6) {
            None => {
                return Err(Error::MalformedDescriptor);
            },
            Some(v) => v,
        };
        let provider = match provider_of_code_exec(s.get_char(22)) {
            None => {
                return Err(Error::MalformedDescriptor);
            },
            Some(p) => p,
        };
        let (node, node_end) = match parse_opt_text_exec(s, 23, l) {
            Err(e) => {
                return Err(Error::MalformedDescriptor);
            },
            Ok(v) => v,
        };
        let (service, service_end) = match parse_opt_text_exec(s, node_end, l) {
            Err(e) => {
                return Err(Error::MalformedDescriptor);
            },
            Ok(v) => v,
        };
        if l - service_end < 16 {
            return Err(Error::MalformedDescriptor);
        }
        let count64 = match parse_hex16(s, service_end) {
            None => {
                return Err(Error::MalformedDescriptor);
            },
            Some(v) => v,
        };
        let tail_start = service_end + 16;
        let remaining = l - tail_start;
        if remaining % 32 != 0 || (remaining / 32) as u64 != count64 {
            proof {
                if parse_regions_list(s@, tail_start as int, count64 as int) is Some {
                    lemma_parse_regions_len(s@, tail_start as int, count64 as int);
                }
            }
            return Err(Error::MalformedDescriptor);
        }
        let n = remaining / 32;
        let mut regions: Vec<Region> = Vec::new();
        let mut pos = tail_start;
        let mut i: usize = 0;
        while i < n
            invariant
                i <= n,
                l == s@.len(),
                l <= usize::MAX,
                tail_start <= l,
                pos == tail_start + 32 * i,
                32 * n == l - tail_start,
                regions@.len() == i,
                match parse_regions_list(s@, pos as int, n - i) {
                    Some(rest) => parse_regions_list(s@, tail_start as int, n as int) == Some(
                        regions@ + rest,
                    ),
                    None => parse_regions_list(s@, tail_start as int, n as int)
                        is None,
                },
            decreases n - i,
        {
            let base = match parse_hex16(s, pos) {
                None => {
                    return Err(Error::MalformedDescriptor);
                },
                Some(v) => v,
            };
            let len = match parse_hex16(s, pos + 16) {
                None => {
                    return Err(Error::MalformedDescriptor);
                },
                Some(v) => v,
            };
            let reg = Region { base, len };
            proof {
                let k = n - i;
                let rest_parse = parse_regions_list(s@, pos as int + 32, k - 1);
                match rest_parse {
                    Some(rest2) => {
                        assert(parse_regions_list(s@, pos as int, k as int) == Some(
                            seq![reg] + rest2,
                        ));
                        assert(regions@ + (seq![reg] + rest2) =~= regions@.push(reg) + rest2);
                    },
                    None => {},
                }
            }
            regions.push(reg);
            pos = pos + 32;
            i += 1;
        }
        proof {
            assert(pos == l);
            assert(parse_regions_list(s@, pos as int, 0) == Some(Seq::<Region>::empty()));
            assert(regions@ + Seq::<Region>::empty() =~= regions@);
        }
        let info = TargetInfo { key, provider, node, service, regions };
        proof {
            assert(parse_info(s@) == Some(info@));
        }
        Ok(info)
    }
}

/// Parsing recovers an optional text field embedded at `pos`.
proof fn lemma_parse_opt_at(s: Seq<char>, pos: int, o: Option<Seq<char>>)
    requires
        0 <= pos,
        pos + encode_opt_text(o).len() <= s.len(),
        s.subrange(pos, pos + encode_opt_text(o).len()) == encode_opt_text(o),
        o matches Some(t) ==> t.len() <= u64::MAX,
    ensures
        parse_opt_text(s, pos) == Some((o, pos + encode_opt_text(o).len())),
{
    lemma_encode_opt_text_len(o);
    let e = encode_opt_text(o);
    match o {
        None => {
            assert(s[pos] == e[0]) by {
                assert(e[0] == s.subrange(pos, pos + e.len() as int)[0]);
            }
        },
        Some(t) => {
            lemma_to_hex_len(t.len() as int, 16);
            assert(s[pos] == e[0]) by {
                assert(e[0] == s.subrange(pos, pos + e.len() as int)[0]);
            }
            assert(s[pos] == '+');
            assert forall|j: int| 0 <= j < 16 implies s.subrange(pos + 1, pos + 17)[j] == to_hex(
                t.len() as int,
                16,
            )[j] by {
                assert(e[1 + j] == s.subrange(pos, pos + e.len() as int)[1 + j]);
            }
            assert(s.subrange(pos + 1, pos + 17) =~= to_hex(t.len() as int, 16));
            lemma_pow16_16();
            lemma_hex_round_trip(t.len() as int, 16);
            assert(from_hex(s.subrange(pos + 1, pos + 17)) == Some(t.len() as int));
            assert forall|j: int| 0 <= j < t.len() implies s.subrange(
                pos + 17,
                pos + 17 + t.len() as int,
            )[j] == t[j] by {
                assert(e[17 + j] == s.subrange(pos, pos + e.len() as int)[17 + j]);
            }
            assert(s.subrange(pos + 17, pos + 17 + t.len()) =~= t);
        },
    }
}

/// Parsing recovers a region list that runs from `pos` to the end.
proof fn lemma_parse_regions_at(s: Seq<char>, pos: int, rs: Seq<Region>)
    requires
        0 <= pos,
        pos + encode_regions_list(rs).len() == s.len(),
        s.subrange(pos, s.len() as int) == encode_regions_list(rs),
    ensures
        parse_regions_list(s, pos, rs.len() as int) == Some(rs),
    decreases rs.len(),
{
    lemma_encode_regions_len(rs);
    let e = encode_regions_list(rs);
    if rs.len() == 0 {
        assert(rs =~= Seq::<Region>::empty());
    } else {
        let r0 = rs[0];
        let rest = encode_regions_list(rs.drop_first());
        lemma_to_hex_len(r0.base as int, 16);
        lemma_to_hex_len(r0.len as int, 16);
        lemma_encode_regions_len(rs.drop_first());
        assert forall|j: int| 0 <= j < 16 implies s.subrange(pos, pos + 16)[j] == to_hex(
            r0.base as int,
            16,
        )[j] by {
            assert(e[j] == s.subrange(pos, s.len() as int)[j]);
        }
        assert(s.subrange(pos, pos + 16) =~= to_hex(r0.base as int, 16));
        assert forall|j: int| 0 <= j < 16 implies s.subrange(pos + 16, pos + 32)[j] == to_hex(
            r0.len as int,
            16,
        )[j] by {
            assert(e[16 + j] == s.subrange(pos, s.len() as int)[16 + j]);
        }
        assert(s.subrange(pos + 16, pos + 32) =~= to_hex(r0.len as int, 16));
        lemma_pow16_16();
        lemma_hex_round_trip(r0.base as int, 16);
        lemma_hex_round_trip(r0.len as int, 16);
        assert forall|j: int| 0 <= j < rest.len() implies s.subrange(pos + 32, s.len() as int)[j]
            == rest[j] by {
            assert(e[32 + j] == s.subrange(pos, s.len() as int)[32 + j]);
        }
        assert(s.subrange(pos + 32, s.len() as int) =~= rest);
        lemma_parse_regions_at(s, pos + 32, rs.drop_first());
        assert(seq![Region { base: r0.base, len: r0.len }] + rs.drop_first() =~= rs);
    }
}

/// Serialising a descriptor and parsing the text back yields the same
/// descriptor, for every descriptor whose fields fit their length
/// prefixes — in particular for every descriptor a target publishes.
pub proof fn lemma_descriptor_round_trip(d: TargetInfoView)
    requires
        d.wf(),
    ensures
        parse_info(encode_info(d)) == Some(d),
{
    let s = encode_info(d);
    let key_txt = to_hex(d.key as int, 16);
    let code = seq![provider_code(d.provider)];
    let node_txt = encode_opt_text(d.node);
    let svc_txt = encode_opt_text(d.service);
    let count_txt = to_hex(d.regions.len() as int, 16);
    let regs_txt = encode_regions_list(d.regions);
    lemma_to_hex_len(d.key as int, 16);
    lemma_to_hex_len(d.regions.len() as int, 16);
    lemma_encode_opt_text_len(d.node);
    lemma_encode_opt_text_len(d.service);
    lemma_encode_regions_len(d.regions);
    assert(descriptor_magic().len() == 6) by {
        reveal_strlit("mxlti1");
    }
    let node_end = 23 + node_txt.len() as int;
    let service_end = node_end + svc_txt.len() as int;
    assert(s.len() == service_end + 16 + regs_txt.len());
    assert(s.subrange(0, 6) =~= descriptor_magic());
    assert(s.subrange(6, 22) =~= key_txt);
    lemma_pow16_16();
    lemma_hex_round_trip(d.key as int, 16);
    assert(s[22] == code[0]);
    lemma_provider_code_round_trip(d.provider);
    assert(s.subrange(23, node_end) =~= node_txt);
    lemma_parse_opt_at(s, 23, d.node);
    assert(s.subrange(node_end, service_end) =~= svc_txt);
    lemma_parse_opt_at(s, node_end, d.service);
    assert(s.subrange(service_end, service_end + 16) =~= count_txt);
    lemma_hex_round_trip(d.regions.len() as int, 16);
    assert(s.subrange(service_end + 16, s.len() as int) =~= regs_txt);
    lemma_parse_regions_at(s, service_end + 16, d.regions);
}

} // verus!
