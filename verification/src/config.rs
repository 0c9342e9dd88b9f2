//! Input-binding configuration, read from an INI text.
//!
//! The INI grammar itself is handled by the `ini` crate behind trusted
//! wrappers; everything downstream of it — picking the device type, parsing
//! the binding values and building the button map — is verified.

use vstd::prelude::*;
use crate::input::{Button, DeviceType, spec_button_from};

verus! {

// An INI document, modelled as its named sections in order, each section as
// its key/value entries in order (both multimaps: duplicates stay).

/// What an `ini::Ini` document holds: its named sections in order, each
/// with its entries in order, all as raw bytes.
pub uninterp spec fn ini_doc(doc: ini::Ini) -> Seq<(Seq<u8>, Seq<(Seq<u8>, Seq<u8>)>)>;

/// What an `ini::Properties` section holds: its entries in order.
pub uninterp spec fn props_entries(p: ini::Properties) -> Seq<(Seq<u8>, Seq<u8>)>;

/// What `ini::Ini::load_from_str` yields on the given text (decoded as
/// UTF-8): the parse is a function of the text alone.
pub uninterp spec fn ini_parse(text: Seq<u8>) -> Option<Seq<(Seq<u8>, Seq<(Seq<u8>, Seq<u8>)>)>>;

#[verifier::external_type_specification]
#[verifier::external_body]
pub struct ExIni(ini::Ini);

#[verifier::external_type_specification]
#[verifier::external_body]
pub struct ExProperties(ini::Properties);

/// First section named `name`, if any.
pub open spec fn find_section(
    doc: Seq<(Seq<u8>, Seq<(Seq<u8>, Seq<u8>)>)>,
    name: Seq<u8>,
) -> Option<Seq<(Seq<u8>, Seq<u8>)>>
    decreases doc.len(),
{
    if doc.len() == 0 {
        None
    } else if doc[0].0 == name {
        Some(doc[0].1)
    } else {
        find_section(doc.drop_first(), name)
    }
}

/// First value under `key`, if any.
pub open spec fn find_first(entries: Seq<(Seq<u8>, Seq<u8>)>, key: Seq<u8>) -> Option<Seq<u8>>
    decreases entries.len(),
{
    if entries.len() == 0 {
        None
    } else if entries[0].0 == key {
        Some(entries[0].1)
    } else {
        find_first(entries.drop_first(), key)
    }
}

/// Relies on `ini::Ini::load_from_str`: parsing an INI text (after UTF-8
/// decoding) is a function of the text alone, modelled by [`ini_parse`].
#[verifier::external_body]
fn ini_load(text: &[u8]) -> (r: Option<ini::Ini>)
    ensures
        match r {
            Some(doc) => ini_parse(text@) == Some(ini_doc(doc)),
            None => ini_parse(text@) is None,
        },
{
    let s = core::str::from_utf8(text).ok()?;
    ini::Ini::load_from_str(s).ok()
}

/// Relies on `ini::Ini::section`: yields the first section with the given
/// name, or nothing when no section carries it.
#[verifier::external_body]
fn ini_section<'a>(doc: &'a ini::Ini, name: &[u8]) -> (r: Option<&'a ini::Properties>)
    ensures
        match r {
            Some(p) => find_section(ini_doc(*doc), name@) == Some(props_entries(*p)),
            None => find_section(ini_doc(*doc), name@) is None,
        },
{
    let name = core::str::from_utf8(name).ok()?;
    doc.section(Some(name))
}

/// The entries a vector of byte-string pairs holds.
pub open spec fn pairs_view(v: Seq<(Vec<u8>, Vec<u8>)>) -> Seq<(Seq<u8>, Seq<u8>)> {
    Seq::new(v.len(), |i: int| (v[i].0@, v[i].1@))
}

/// Relies on `ini::Properties::iter`: yields the section's entries in
/// order.
#[verifier::external_body]
fn props_pairs(p: &ini::Properties) -> (r: Vec<(Vec<u8>, Vec<u8>)>)
    ensures
        pairs_view(r@) == props_entries(*p),
{
    p.iter().map(|(k, v)| (k.as_bytes().to_vec(), v.as_bytes().to_vec())).collect()
}

// Decimal numbers, as the binding values are written.

pub open spec fn is_digit(b: u8) -> bool {
    48 <= b <= 57
}

/// Value of a digit string, most significant digit first.
pub open spec fn dec_val(s: Seq<u8>) -> int
    decreases s.len(),
{
    if s.len() == 0 {
        0
    } else {
        dec_val(s.drop_last()) * 10 + (s.last() - 48)
    }
}

/// What a binding value parses to: the number it spells, if it is a
/// non-empty digit string whose value fits.
pub open spec fn dec_value(s: Seq<u8>) -> Option<u32> {
    if s.len() > 0 && (forall|i: int| 0 <= i < s.len() ==> is_digit(#[trigger] s[i])) && dec_val(s)
        <= u32::MAX {
        Some(dec_val(s) as u32)
    } else {
        None
    }
}

proof fn lemma_dec_val_nonneg(s: Seq<u8>)
    requires
        forall|i: int| 0 <= i < s.len() ==> is_digit(#[trigger] s[i]),
    ensures
        dec_val(s) >= 0,
    decreases s.len(),
{
    if s.len() > 0 {
        lemma_dec_val_nonneg(s.drop_last());
    }
}

/// Appending digits never shrinks the value.
proof fn lemma_dec_val_grows(s: Seq<u8>, i: int)
    requires
        0 <= i <= s.len(),
        forall|j: int| 0 <= j < s.len() ==> is_digit(#[trigger] s[j]),
    ensures
        dec_val(s.take(i)) <= dec_val(s),
    decreases s.len() - i,
{
    if i < s.len() {
        lemma_dec_val_nonneg(s.take(i));
        assert(s.take(i + 1).drop_last() =~= s.take(i));
        assert(dec_val(s.take(i)) <= dec_val(s.take(i + 1)));
        lemma_dec_val_grows(s, i + 1);
    } else {
        assert(s.take(i) =~= s);
    }
}

/// Parse a decimal number: [`dec_value`] of the bytes.
pub fn parse_u32(s: &[u8]) -> (r: Option<u32>)
    ensures
        r == dec_value(s@),
{
    if s.len() == 0 {
        return None;
    }
    let mut acc: u64 = 0;
    let mut i: usize = 0;
    while i < s.len()
        invariant
            0 < s@.len(),
            i <= s@.len(),
            forall|j: int| 0 <= j < i ==> is_digit(#[trigger] s@[j]),
            acc == dec_val(s@.take(i as int)),
            acc <= u32::MAX,
        decreases s@.len() - i,
    {
        let b = s[i];
        if b < 48 || b > 57 {
            return None;
        }
        proof {
            assert(s@.take(i as int + 1).drop_last() =~= s@.take(i as int));
        }
        acc = acc * 10 + ((b - 48) as u64);
        i = i + 1;
        if acc > 0xffff_ffff {
            proof {
                if forall|j: int| 0 <= j < s@.len() ==> is_digit(#[trigger] s@[j]) {
                    lemma_dec_val_grows(s@, i as int);
                }
                assert(s@.take(s@.len() as int) =~= s@);
            }
            return None;
        }
    }
    proof {
        assert(s@.take(s@.len() as int) =~= s@);
    }
    Some(acc as u32)
}

// The configuration file's fixed names, as byte strings.

pub open spec fn device_section_name() -> Seq<u8> {
    // "Device"
    seq![68u8, 101u8, 118u8, 105u8, 99u8, 101u8]
}

pub open spec fn type_key_name() -> Seq<u8> {
    // "Type"
    seq![84u8, 121u8, 112u8, 101u8]
}

pub open spec fn bindings_section_name() -> Seq<u8> {
    // "Bindings"
    seq![66u8, 105u8, 110u8, 100u8, 105u8, 110u8, 103u8, 115u8]
}

pub open spec fn keyboard_type_name() -> Seq<u8> {
    // "Keyboard"
    seq![75u8, 101u8, 121u8, 98u8, 111u8, 97u8, 114u8, 100u8]
}

pub open spec fn dualshock_type_name() -> Seq<u8> {
    // "Dualshock"
    seq![68u8, 117u8, 97u8, 108u8, 115u8, 104u8, 111u8, 99u8, 107u8]
}

fn push_all(v: &mut Vec<u8>, s: &[u8])
    requires
        old(v)@.len() == 0,
    ensures
        final(v)@ == s@,
{
    let mut i: usize = 0;
    while i < s.len()
        invariant
            i <= s@.len(),
            v@ == s@.take(i as int),
        decreases s@.len() - i,
    {
        v.push(s[i]);
        proof {
            assert(s@.take(i as int).push(s@[i as int]) =~= s@.take(i as int + 1));
        }
        i = i + 1;
    }
    proof {
        assert(s@.take(s@.len() as int) =~= s@);
    }
}

/// The device type a configuration names: the two known spellings, with
/// anything else read as unknown (a logged anomaly, not a failure).
pub open spec fn spec_device_type(v: Seq<u8>) -> DeviceType {
    if v == keyboard_type_name() {
        DeviceType::Keyboard
    } else if v == dualshock_type_name() {
        DeviceType::DualShock
    } else {
        DeviceType::Unknown
    }
}

/// Whether two byte strings hold the same bytes.
fn bytes_eq(a: &[u8], b: &[u8]) -> (r: bool)
    ensures
        r == (a@ == b@),
{
    if a.len() != b.len() {
        proof {
            assert(a@.len() != b@.len());
        }
        return false;
    }
    let mut i: usize = 0;
    while i < a.len()
        invariant
            i <= a@.len(),
            a@.len() == b@.len(),
            forall|j: int| 0 <= j < i ==> a@[j] == b@[j],
        decreases a@.len() - i,
    {
        if a[i] != b[i] {
            return false;
        }
        i = i + 1;
    }
    proof {
        assert(a@ =~= b@);
    }
    true
}

/// The bindings a section's entries describe: every value must spell the
/// serial bit position of a button; one bad entry rejects the whole file.
pub open spec fn spec_bindings_ok(es: Seq<(Seq<u8>, Seq<u8>)>) -> bool {
    forall|i: int|
        0 <= i < es.len() ==> {
            &&& dec_value(#[trigger] es[i].1) is Some
            &&& spec_button_from(dec_value(es[i].1)->Some_0) is Some
        }
}

/// The button bound by entry `i` of a valid bindings section.
pub open spec fn spec_binding(es: Seq<(Seq<u8>, Seq<u8>)>, i: int) -> (Seq<u8>, Button) {
    (es[i].0, spec_button_from(dec_value(es[i].1)->Some_0)->Some_0)
}

/// Input bindings for one controller port, as read from a configuration
/// text.
pub struct InputConfig {
    pub device_type: DeviceType,
    pub bindings: Vec<(Vec<u8>, Button)>,
}

impl InputConfig {
    /// Read a configuration from an INI text: the device type from the
    /// `Type` key of the `Device` section, the bindings from the `Bindings`
    /// section (each value the serial bit position of a button). Yields
    /// nothing when the text does not parse, a section or the type key is
    /// missing, or a binding value is not a button.
    #[verifier::loop_isolation(false)]
    pub fn from_text(text: &[u8]) -> (r: Option<InputConfig>)
        ensures
            match ini_parse(text@) {
                None => r is None,
                Some(doc) => match find_section(doc, device_section_name()) {
                    None => r is None,
                    Some(dev) => match find_first(dev, type_key_name()) {
                        None => r is None,
                        Some(tv) => match find_section(doc, bindings_section_name()) {
                            None => r is None,
                            Some(bs) => {
                                if spec_bindings_ok(bs) {
                                    match r {
                                        None => false,
                                        Some(c) => {
                                            &&& c.device_type == spec_device_type(tv)
                                            &&& c.bindings@.len() == bs.len()
                                            &&& forall|i: int|
                                                0 <= i < bs.len() ==> {
                                                    &&& #[trigger] c.bindings@[i].0@
                                                        == spec_binding(bs, i).0
                                                    &&& c.bindings@[i].1 == spec_binding(bs, i).1
                                                }
                                        },
                                    }
                                } else {
                                    r is None
                                }
                            },
                        },
                    },
                },
            },
    {
        let doc = match ini_load(text) {
            Some(d) => d,
            None => {
                return None;
            },
        };

        let mut device_name: Vec<u8> = Vec::new();
        push_all(&mut device_name, &[68, 101, 118, 105, 99, 101]);
        proof {
            assert(device_name@ =~= device_section_name());
        }
        let dev = match ini_section(&doc, device_name.as_slice()) {
            Some(p) => p,
            None => {
                return None;
            },
        };
        let dev_pairs = props_pairs(dev);

        let mut type_key: Vec<u8> = Vec::new();
        push_all(&mut type_key, &[84, 121, 112, 101]);
        proof {
            assert(type_key@ =~= type_key_name());
        }
        let tv = match find_value(&dev_pairs, type_key.as_slice()) {
            Some(v) => v,
            None => {
                return None;
            },
        };

        let mut keyboard_name: Vec<u8> = Vec::new();
        push_all(&mut keyboard_name, &[75, 101, 121, 98, 111, 97, 114, 100]);
        let mut dualshock_name: Vec<u8> = Vec::new();
        push_all(&mut dualshock_name, &[68, 117, 97, 108, 115, 104, 111, 99, 107]);
        proof {
            assert(keyboard_name@ =~= keyboard_type_name());
            assert(dualshock_name@ =~= dualshock_type_name());
        }
        let device_type = if bytes_eq(tv.as_slice(), keyboard_name.as_slice()) {
            DeviceType::Keyboard
        } else if bytes_eq(tv.as_slice(), dualshock_name.as_slice()) {
            DeviceType::DualShock
        } else {
            // Unknown device spelling: a logged anomaly; fall back to a
            // disconnected placeholder.
            DeviceType::Unknown
        };

        let mut bindings_name: Vec<u8> = Vec::new();
        push_all(&mut bindings_name, &[66, 105, 110, 100, 105, 110, 103, 115]);
        proof {
            assert(bindings_name@ =~= bindings_section_name());
        }
        let bs = match ini_section(&doc, bindings_name.as_slice()) {
            Some(p) => p,
            None => {
                return None;
            },
        };
        let pairs = props_pairs(bs);
        let ghost es = props_entries(*bs);

        let mut bindings: Vec<(Vec<u8>, Button)> = Vec::new();
        let n = pairs.len();
        let mut i: usize = 0;
        while i < n
            invariant
                i <= n,
                n == pairs@.len(),
                es == pairs_view(pairs@),
                bindings@.len() == i,
                forall|j: int|
                    0 <= j < i ==> {
                        &&& dec_value(#[trigger] es[j].1) is Some
                        &&& spec_button_from(dec_value(es[j].1)->Some_0) is Some
                        &&& bindings@[j].0@ == spec_binding(es, j).0
                        &&& bindings@[j].1 == spec_binding(es, j).1
                    },
            decreases n - i,
        {
            let value = match parse_u32(pairs[i].1.as_slice()) {
                Some(x) => x,
                None => {
                    proof {
                        assert(dec_value(es[i as int].1) is None);
                        assert(!spec_bindings_ok(es));
                    }
                    return None;
                },
            };
            let button = match Button::from_u32(value) {
                Some(b) => b,
                None => {
                    proof {
                        assert(spec_button_from(dec_value(es[i as int].1)->Some_0) is None);
                        assert(!spec_bindings_ok(es));
                    }
                    return None;
                },
            };
            bindings.push((pairs[i].0.clone(), button));
            i = i + 1;
        }
        proof {
            assert(spec_bindings_ok(es));
        }

        Some(InputConfig { device_type, bindings })
    }

    /// The configured bindings: host input name to console button.
    pub fn bindings(&self) -> (r: &Vec<(Vec<u8>, Button)>)
        ensures
            r == &self.bindings,
    {
        &self.bindings
    }
}

fn find_value<'a>(pairs: &'a Vec<(Vec<u8>, Vec<u8>)>, key: &[u8]) -> (r: Option<&'a Vec<u8>>)
    ensures
        match r {
            Some(v) => find_first(pairs_view(pairs@), key@) == Some(v@),
            None => find_first(pairs_view(pairs@), key@) is None,
        },
{
    let ghost gp = pairs_view(pairs@);
    let n = pairs.len();
    let mut i: usize = 0;
    proof {
        assert(gp.skip(0) =~= gp);
    }
    while i < n
        invariant
            i <= n,
            n == pairs@.len(),
            gp == pairs_view(pairs@),
            find_first(gp, key@) == find_first(gp.skip(i as int), key@),
        decreases n - i,
    {
        proof {
            assert(gp.skip(i as int)[0] == gp[i as int]);
            assert(gp.skip(i as int).drop_first() =~= gp.skip(i as int + 1));
        }
        if bytes_eq(pairs[i].0.as_slice(), key) {
            return Some(&pairs[i].1);
        }
        i = i + 1;
    }
    proof {
        assert(gp.skip(n as int) =~= Seq::<(Seq<u8>, Seq<u8>)>::empty());
    }
    None
}

/// The bindings a button map holds.
pub open spec fn bindings_view(v: Seq<(Vec<u8>, Button)>) -> Seq<(Seq<u8>, Button)> {
    Seq::new(v.len(), |i: int| (v[i].0@, v[i].1))
}

/// The button the last binding named `input` carries, if any: a binding
/// written later in the configuration overrides an earlier one for the same
/// input.
pub open spec fn last_binding(m: Seq<(Seq<u8>, Button)>, input: Seq<u8>) -> Option<Button>
    decreases m.len(),
{
    if m.len() == 0 {
        None
    } else if m.last().0 == input {
        Some(m.last().1)
    } else {
        last_binding(m.drop_last(), input)
    }
}

/// Host input name to console button, as one controller port uses it.
pub struct ButtonMap {
    pub map: Vec<(Vec<u8>, Button)>,
}

impl ButtonMap {
    /// An empty map: no input is bound.
    pub fn new() -> (r: ButtonMap)
        ensures
            r.map@.len() == 0,
    {
        ButtonMap { map: Vec::new() }
    }

    /// Adopt a configuration's bindings.
    pub fn from_config(config: InputConfig) -> (r: ButtonMap)
        ensures
            r.map == config.bindings,
    {
        ButtonMap { map: config.bindings }
    }

    /// The button bound to `input`. A name bound twice keeps its last
    /// binding, as a later configuration line overrides an earlier one.
    pub fn button(&self, input: &[u8]) -> (r: Option<Button>)
        ensures
            r == last_binding(bindings_view(self.map@), input@),
    {
        let ghost bv = bindings_view(self.map@);
        let mut found: Option<Button> = None;
        let n = self.map.len();
        let mut i: usize = 0;
        proof {
            assert(bv.take(0) =~= Seq::<(Seq<u8>, Button)>::empty());
        }
        while i < n
            invariant
                i <= n,
                n == self.map@.len(),
                bv == bindings_view(self.map@),
                found == last_binding(bv.take(i as int), input@),
            decreases n - i,
        {
            proof {
                assert(bv.take(i as int + 1).drop_last() =~= bv.take(i as int));
                assert(bv.take(i as int + 1).last() == bv[i as int]);
            }
            if bytes_eq(self.map[i].0.as_slice(), input) {
                found = Some(self.map[i].1);
            }
            i = i + 1;
        }
        proof {
            assert(bv.take(n as int) =~= bv);
        }
        found
    }
}

} // verus!
