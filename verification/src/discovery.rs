//! LG TVs found by UPnP discovery, and the rules for which discovered devices count.

use vstd::prelude::*;

use crate::json::push_str;
use crate::net::{mac_parse, parse_mac};
use crate::text::{chars_of, contains_seq, occurs_at, push_char, starts_with_str, contains_str, str_eq};

verus! {

/// A UPnP Device representation of an LG TV.
#[derive(Clone, Debug, PartialEq, Eq, Hash)]
pub struct LgTvDevice {
    pub friendly_name: String,
    pub model: String,
    pub model_number: Option<String>,
    pub serial_number: Option<String>,
    pub url: String,
    pub udn: String,
    pub mac_addr: Option<String>,
}

/// The view of an optional string.
pub open spec fn opt_string_view(o: Option<String>) -> Option<Seq<char>> {
    match o {
        Some(s) => Some(s@),
        None => None,
    }
}

/// Mathematical view of an [`LgTvDevice`].
pub struct LgTvDeviceView {
    pub friendly_name: Seq<char>,
    pub model: Seq<char>,
    pub model_number: Option<Seq<char>>,
    pub serial_number: Option<Seq<char>>,
    pub url: Seq<char>,
    pub udn: Seq<char>,
    pub mac_addr: Option<Seq<char>>,
}

impl View for LgTvDevice {
    type V = LgTvDeviceView;

    open spec fn view(&self) -> LgTvDeviceView {
        LgTvDeviceView {
            friendly_name: self.friendly_name@,
            model: self.model@,
            model_number: opt_string_view(self.model_number),
            serial_number: opt_string_view(self.serial_number),
            url: self.url@,
            udn: self.udn@,
            mac_addr: opt_string_view(self.mac_addr),
        }
    }
}

/// A copy of an optional string.
pub fn copy_opt_string(o: &Option<String>) -> (r: Option<String>)
    ensures
        r == *o,
{
    match o {
        Some(s) => Some(s.clone()),
        None => None,
    }
}

/// The display text of a device: `friendly name (model) [udn]`.
pub open spec fn device_display(d: LgTvDeviceView) -> Seq<char> {
    d.friendly_name + " ("@ + d.model + ") ["@ + d.udn + "]"@
}

impl LgTvDevice {
    /// A copy of this device.
    pub fn copy(&self) -> (r: LgTvDevice)
        ensures
            r == *self,
    {
        LgTvDevice {
            friendly_name: self.friendly_name.clone(),
            model: self.model.clone(),
            model_number: copy_opt_string(&self.model_number),
            serial_number: copy_opt_string(&self.serial_number),
            url: self.url.clone(),
            udn: self.udn.clone(),
            mac_addr: copy_opt_string(&self.mac_addr),
        }
    }

    /// The display text of this device, e.g. `LG WebOS TV (model) [uuid:...]`.
    pub fn to_display_string(&self) -> (r: String)
        ensures
            r@ == device_display(self@),
    {
        let mut out = String::new();
        push_str(&mut out, self.friendly_name.as_str());
        push_str(&mut out, " (");
        push_str(&mut out, self.model.as_str());
        push_str(&mut out, ") [");
        push_str(&mut out, self.udn.as_str());
        push_str(&mut out, "]");
        assert(out@ =~= device_display(self@));
        out
    }
}


/// Characters with the Unicode `White_Space` property (what `char::is_whitespace` accepts).
pub open spec fn is_white_space(c: char) -> bool {
    ('\u{9}' <= c && c <= '\u{d}') || c == ' ' || c == '\u{85}' || c == '\u{a0}' || c == '\u{1680}'
        || ('\u{2000}' <= c && c <= '\u{200a}') || c == '\u{2028}' || c == '\u{2029}' || c
        == '\u{202f}' || c == '\u{205f}' || c == '\u{3000}'
}

/// A line without its trailing carriage return, if it has one.
pub open spec fn strip_cr(l: Seq<char>) -> Seq<char> {
    if l.len() > 0 && l.last() == '\r' {
        l.drop_last()
    } else {
        l
    }
}

/// The complete lines of `s` so far, and the unfinished last line.
pub open spec fn lines_acc(s: Seq<char>) -> (Seq<Seq<char>>, Seq<char>)
    decreases s.len(),
{
    if s.len() == 0 {
        (Seq::empty(), Seq::empty())
    } else {
        let (done, cur) = lines_acc(s.drop_last());
        if s.last() == '\n' {
            (done.push(strip_cr(cur)), Seq::empty())
        } else {
            (done, cur.push(s.last()))
        }
    }
}

/// The lines of `s`: split at `\n` (a `\r` before it is dropped); a last line without `\n`
/// counts when it is not empty.
pub open spec fn lines_of(s: Seq<char>) -> Seq<Seq<char>> {
    let (done, cur) = lines_acc(s);
    if cur.len() > 0 {
        done.push(cur)
    } else {
        done
    }
}

/// The complete words of `s` so far, and the unfinished last word.
pub open spec fn words_acc(s: Seq<char>) -> (Seq<Seq<char>>, Seq<char>)
    decreases s.len(),
{
    if s.len() == 0 {
        (Seq::empty(), Seq::empty())
    } else {
        let (done, cur) = words_acc(s.drop_last());
        if is_white_space(s.last()) {
            if cur.len() > 0 {
                (done.push(cur), Seq::empty())
            } else {
                (done, Seq::empty())
            }
        } else {
            (done, cur.push(s.last()))
        }
    }
}

/// The words of `s`: the non-empty runs of non-white-space characters.
pub open spec fn words_of(s: Seq<char>) -> Seq<Seq<char>> {
    let (done, cur) = words_acc(s);
    if cur.len() > 0 {
        done.push(cur)
    } else {
        done
    }
}

/// The first of `ls` that contains `needle`.
pub open spec fn first_containing(ls: Seq<Seq<char>>, needle: Seq<char>) -> Option<Seq<char>>
    decreases ls.len(),
{
    if ls.len() == 0 {
        None
    } else if contains_seq(ls[0], needle) {
        Some(ls[0])
    } else {
        first_containing(ls.drop_first(), needle)
    }
}

/// The first of `ws` that parses as a MAC address.
pub open spec fn first_mac_word(ws: Seq<Seq<char>>) -> Option<Seq<char>>
    decreases ws.len(),
{
    if ws.len() == 0 {
        None
    } else if mac_parse(ws[0]) is Some {
        Some(ws[0])
    } else {
        first_mac_word(ws.drop_first())
    }
}

/// The MAC address that `arp` output gives for an IP: the first word that parses as a MAC
/// address on the first line that mentions the IP's text.
pub open spec fn spec_arp_mac(output: Seq<char>, ip_text: Seq<char>) -> Option<Seq<char>> {
    match first_containing(lines_of(output), ip_text) {
        Some(line) => first_mac_word(words_of(line)),
        None => None,
    }
}

proof fn lemma_first_containing_skip(ls: Seq<Seq<char>>, needle: Seq<char>, i: int)
    requires
        0 <= i <= ls.len(),
        forall|k: int| 0 <= k < i ==> !contains_seq(#[trigger] ls[k], needle),
    ensures
        first_containing(ls, needle) == first_containing(ls.subrange(i, ls.len() as int), needle),
    decreases i,
{
    if i > 0 {
        assert(!contains_seq(ls[0], needle));
        let rest = ls.drop_first();
        assert forall|k: int| 0 <= k < i - 1 implies !contains_seq(#[trigger] rest[k], needle) by {
            assert(rest[k] == ls[k + 1]);
        }
        lemma_first_containing_skip(rest, needle, i - 1);
        assert(rest.subrange(i - 1, rest.len() as int) =~= ls.subrange(i, ls.len() as int));
    } else {
        assert(ls.subrange(0, ls.len() as int) =~= ls);
    }
}

proof fn lemma_first_mac_skip(ws: Seq<Seq<char>>, i: int)
    requires
        0 <= i <= ws.len(),
        forall|k: int| 0 <= k < i ==> mac_parse(#[trigger] ws[k]) is None,
    ensures
        first_mac_word(ws) == first_mac_word(ws.subrange(i, ws.len() as int)),
    decreases i,
{
    if i > 0 {
        assert(mac_parse(ws[0]) is None);
        let rest = ws.drop_first();
        assert forall|k: int| 0 <= k < i - 1 implies mac_parse(#[trigger] rest[k]) is None by {
            assert(rest[k] == ws[k + 1]);
        }
        lemma_first_mac_skip(rest, i - 1);
        assert(rest.subrange(i - 1, rest.len() as int) =~= ws.subrange(i, ws.len() as int));
    } else {
        assert(ws.subrange(0, ws.len() as int) =~= ws);
    }
}

/// The views of a vector of character vectors.
pub open spec fn vec_views(v: Seq<Vec<char>>) -> Seq<Seq<char>> {
    v.map_values(|w: Vec<char>| w@)
}

fn split_lines(s: &Vec<char>) -> (r: Vec<Vec<char>>)
    ensures
        vec_views(r@) == lines_of(s@),
{
    let mut done: Vec<Vec<char>> = Vec::new();
    let mut cur: Vec<char> = Vec::new();
    let mut i: usize = 0;
    while i < s.len()
        invariant
            i <= s.len(),
            (vec_views(done@), cur@) == lines_acc(s@.subrange(0, i as int)),
        decreases s.len() - i,
    {
        let c = s[i];
        proof {
            let next = s@.subrange(0, i + 1);
            assert(next.drop_last() =~= s@.subrange(0, i as int));
            assert(next.last() == c);
        }
        if c == '\n' {
            let mut line = cur;
            if line.len() > 0 && line[line.len() - 1] == '\r' {
                line.pop();
            }
            let ghost before = vec_views(done@);
            done.push(line);
            assert(vec_views(done@) =~= before.push(line@));
            cur = Vec::new();
        } else {
            cur.push(c);
        }
        i = i + 1;
    }
    assert(s@.subrange(0, s.len() as int) =~= s@);
    if cur.len() > 0 {
        let ghost before = vec_views(done@);
        let ghost last = cur@;
        done.push(cur);
        assert(vec_views(done@) =~= before.push(last));
    }
    done
}

fn split_words(s: &Vec<char>) -> (r: Vec<Vec<char>>)
    ensures
        vec_views(r@) == words_of(s@),
{
    let mut done: Vec<Vec<char>> = Vec::new();
    let mut cur: Vec<char> = Vec::new();
    let mut i: usize = 0;
    while i < s.len()
        invariant
            i <= s.len(),
            (vec_views(done@), cur@) == words_acc(s@.subrange(0, i as int)),
        decreases s.len() - i,
    {
        let c = s[i];
        proof {
            let next = s@.subrange(0, i + 1);
            assert(next.drop_last() =~= s@.subrange(0, i as int));
            assert(next.last() == c);
        }
        if is_white_space_exec(c) {
            if cur.len() > 0 {
                let ghost before = vec_views(done@);
                let ghost last = cur@;
                done.push(cur);
                assert(vec_views(done@) =~= before.push(last));
            }
            cur = Vec::new();
        } else {
            cur.push(c);
        }
        i = i + 1;
    }
    assert(s@.subrange(0, s.len() as int) =~= s@);
    if cur.len() > 0 {
        let ghost before = vec_views(done@);
        let ghost last = cur@;
        done.push(cur);
        assert(vec_views(done@) =~= before.push(last));
    }
    done
}

fn is_white_space_exec(c: char) -> (r: bool)
    ensures
        r == is_white_space(c),
{
    ('\u{9}' <= c && c <= '\u{d}') || c == ' ' || c == '\u{85}' || c == '\u{a0}' || c == '\u{1680}'
        || ('\u{2000}' <= c && c <= '\u{200a}') || c == '\u{2028}' || c == '\u{2029}' || c
        == '\u{202f}' || c == '\u{205f}' || c == '\u{3000}'
}

fn string_of(v: &Vec<char>) -> (r: String)
    ensures
        r@ == v@,
{
    let mut out = String::new();
    let mut i: usize = 0;
    while i < v.len()
        invariant
            i <= v.len(),
            out@ == v@.subrange(0, i as int),
        decreases v.len() - i,
    {
        push_char(&mut out, v[i]);
        i = i + 1;
        assert(out@ =~= v@.subrange(0, i as int));
    }
    assert(v@.subrange(0, v.len() as int) =~= v@);
    out
}

fn vec_contains(hay: &Vec<char>, needle: &Vec<char>) -> (r: bool)
    ensures
        r == contains_seq(hay@, needle@),
{
    let h = string_of(hay);
    let n = string_of(needle);
    contains_str(h.as_str(), n.as_str())
}

/// The MAC address in `arp -n <ip>` output for the IP whose text is `ip_text`: the first word
/// that parses as a MAC address, on the first line that mentions the IP.
pub fn mac_from_arp_output(output: &str, ip_text: &str) -> (r: Option<String>)
    ensures
        opt_string_view(r) == spec_arp_mac(output@, ip_text@),
{
    let chars = chars_of(output);
    let ip = chars_of(ip_text);
    let lines = split_lines(&chars);
    let ghost ls = vec_views(lines@);
    let mut i: usize = 0;
    while i < lines.len()
        invariant
            i <= lines.len(),
            ls == vec_views(lines@),
            ls == lines_of(output@),
            ip@ == ip_text@,
            forall|k: int| 0 <= k < i ==> !contains_seq(#[trigger] ls[k], ip_text@),
        decreases lines.len() - i,
    {
        let line = &lines[i];
        assert(ls[i as int] == line@);
        if vec_contains(line, &ip) {
            proof {
                lemma_first_containing_skip(ls, ip_text@, i as int);
                assert(ls.subrange(i as int, ls.len() as int)[0] == line@);
                assert(first_containing(ls, ip_text@) == Some(line@));
            }
            let words = split_words(line);
            let ghost ws = vec_views(words@);
            let mut j: usize = 0;
            while j < words.len()
                invariant
                    j <= words.len(),
                    ws == vec_views(words@),
                    ws == words_of(line@),
                    first_containing(lines_of(output@), ip_text@) == Some(line@),
                    forall|k: int| 0 <= k < j ==> mac_parse(#[trigger] ws[k]) is None,
                decreases words.len() - j,
            {
                let word = string_of(&words[j]);
                assert(ws[j as int] == word@);
                if parse_mac(word.as_str()).is_some() {
                    proof {
                        lemma_first_mac_skip(ws, j as int);
                        assert(ws.subrange(j as int, ws.len() as int)[0] == word@);
                    }
                    return Some(word);
                }
                j = j + 1;
            }
            proof {
                lemma_first_mac_skip(ws, words.len() as int);
            }
            return None;
        }
        i = i + 1;
    }
    proof {
        lemma_first_containing_skip(ls, ip_text@, lines.len() as int);
    }
    None
}


/// What UPnP discovery reports of one MediaRenderer device.
pub struct UpnpDeviceInfo {
    pub friendly_name: String,
    pub manufacturer: String,
    pub model_name: String,
    pub model_number: Option<String>,
    pub serial_number: Option<String>,
    pub url: String,
    pub udn: String,
}

/// What discovery does with a reported device.
#[derive(Debug, Clone, Copy, PartialEq, Eq, Structural)]
pub enum DiscoveryDecision {
    /// The device (by UDN) was already reported during this discovery.
    Duplicate,
    /// A new device that is not an LG TV; it is ignored.
    NotLgTv,
    /// A new LG TV.
    LgTv,
}

/// Whether a device is an LG TV: made by "LG Elec..." with "TV" in its model name.
pub open spec fn is_lg_tv(manufacturer: Seq<char>, model_name: Seq<char>) -> bool {
    occurs_at(manufacturer, "LG Elec"@, 0) && contains_seq(model_name, "TV"@)
}

/// The seen UDNs and the decision after discovery reports a device.
pub open spec fn spec_classify(
    seen: Set<Seq<char>>,
    udn: Seq<char>,
    manufacturer: Seq<char>,
    model_name: Seq<char>,
) -> (Set<Seq<char>>, DiscoveryDecision) {
    if seen.contains(udn) {
        (seen, DiscoveryDecision::Duplicate)
    } else if is_lg_tv(manufacturer, model_name) {
        (seen.insert(udn), DiscoveryDecision::LgTv)
    } else {
        (seen.insert(udn), DiscoveryDecision::NotLgTv)
    }
}

/// Tracks the devices seen during one UPnP discovery.
pub struct DiscoveryFilter {
    seen_udns: Vec<String>,
}

impl DiscoveryFilter {
    /// The UDNs seen so far.
    pub closed spec fn seen(&self) -> Set<Seq<char>> {
        self.seen_udns@.map_values(|u: String| u@).to_set()
    }

    /// A filter that has seen nothing.
    pub fn new() -> (r: DiscoveryFilter)
        ensures
            r.seen() == Set::<Seq<char>>::empty(),
    {
        let r = DiscoveryFilter { seen_udns: Vec::new() };
        assert(r.seen_udns@.map_values(|u: String| u@) =~= Seq::<Seq<char>>::empty());
        r
    }

    fn has_seen(&self, udn: &str) -> (r: bool)
        ensures
            r == self.seen().contains(udn@),
    {
        let ghost views = self.seen_udns@.map_values(|u: String| u@);
        let mut i: usize = 0;
        while i < self.seen_udns.len()
            invariant
                i <= self.seen_udns.len(),
                views == self.seen_udns@.map_values(|u: String| u@),
                forall|k: int| 0 <= k < i ==> views[k] != udn@,
            decreases self.seen_udns.len() - i,
        {
            if str_eq(self.seen_udns[i].as_str(), udn) {
                assert(views[i as int] == udn@);
                assert(views.contains(udn@));
                return true;
            }
            i = i + 1;
        }
        assert(!views.contains(udn@));
        false
    }

    /// Classifies a device reported by discovery and records its UDN.
    pub fn classify(&mut self, udn: &str, manufacturer: &str, model_name: &str) -> (r:
        DiscoveryDecision)
        ensures
            (final(self).seen(), r) == spec_classify(old(self).seen(), udn@, manufacturer@, model_name@),
    {
        if self.has_seen(udn) {
            return DiscoveryDecision::Duplicate;
        }
        let ghost before = self.seen_udns@.map_values(|u: String| u@);
        self.seen_udns.push(String::from_str(udn));
        proof {
            let after = self.seen_udns@.map_values(|u: String| u@);
            assert(after =~= before.push(udn@));
            before.lemma_push_to_set_commute(udn@);
            assert(after.to_set() =~= before.to_set().insert(udn@));
        }
        if starts_with_str(manufacturer, "LG Elec") && contains_str(model_name, "TV") {
            DiscoveryDecision::LgTv
        } else {
            DiscoveryDecision::NotLgTv
        }
    }
}

/// The LG TV device for a discovered device and its MAC address.
pub fn lgtv_device(info: &UpnpDeviceInfo, mac_addr: Option<String>) -> (r: LgTvDevice)
    ensures
        r@ == (LgTvDeviceView {
            friendly_name: info.friendly_name@,
            model: info.model_name@,
            model_number: opt_string_view(info.model_number),
            serial_number: opt_string_view(info.serial_number),
            url: info.url@,
            udn: info.udn@,
            mac_addr: opt_string_view(mac_addr),
        }),
{
    LgTvDevice {
        friendly_name: info.friendly_name.clone(),
        model: info.model_name.clone(),
        model_number: copy_opt_string(&info.model_number),
        serial_number: copy_opt_string(&info.serial_number),
        url: info.url.clone(),
        udn: info.udn.clone(),
        mac_addr,
    }
}

/// A device is reported by discovery at most once: the second report of a UDN is a duplicate
/// and changes nothing.
pub proof fn law_each_udn_reported_once(
    seen: Set<Seq<char>>,
    udn: Seq<char>,
    manufacturer: Seq<char>,
    model_name: Seq<char>,
    manufacturer2: Seq<char>,
    model_name2: Seq<char>,
)
    ensures
        ({
            let (after, _) = spec_classify(seen, udn, manufacturer, model_name);
            spec_classify(after, udn, manufacturer2, model_name2) == (
                after,
                DiscoveryDecision::Duplicate,
            )
        }),
{
}

/// A device not reported before is an LG TV exactly when its manufacturer starts with
/// `LG Elec` and its model name contains `TV` (so `LG Electronics Inc.` with `webOS TV ...`
/// counts); either way its UDN is recorded as seen.
pub proof fn law_lg_tv_by_manufacturer_and_model(
    seen: Set<Seq<char>>,
    udn: Seq<char>,
    manufacturer: Seq<char>,
    model_name: Seq<char>,
)
    requires
        !seen.contains(udn),
    ensures
        ({
            let (after, d) = spec_classify(seen, udn, manufacturer, model_name);
            &&& after == seen.insert(udn)
            &&& (occurs_at(manufacturer, "LG Elec"@, 0) && (exists|i: int|
                occurs_at(model_name, "TV"@, i)) ==> d == DiscoveryDecision::LgTv)
            &&& (!occurs_at(manufacturer, "LG Elec"@, 0) ==> d == DiscoveryDecision::NotLgTv)
            &&& (!(exists|i: int| occurs_at(model_name, "TV"@, i)) ==> d
                == DiscoveryDecision::NotLgTv)
        }),
{
}

} // verus!
