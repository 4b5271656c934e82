use vstd::prelude::*;

use crate::text::{
    chars_of, concat_text, contains, contains_chars, ends_with, ends_with_chars, find_char,
    is_white_space, lines, lines_of, same_chars, slice_chars, split_char, split_chars,
    string_from_chars, trim, trim_bounds, views_of, white_space,
};

verus! {

// ---------------------------------------------------------------------------
// The device list printed by `llama-server --list-devices`.
// ---------------------------------------------------------------------------

/// A line naming a device: indented, with a `:` in it, and not the heading.
pub open spec fn is_device_line(line: Seq<char>) -> bool {
    &&& line.len() > 0
    &&& is_white_space(line[0])
    &&& contains(trim(line), ":"@)
    &&& !contains(line, "Available devices"@)
}

/// The device lines, trimmed, in order.
pub open spec fn device_lines(ls: Seq<Seq<char>>) -> Seq<Seq<char>>
    decreases ls.len(),
{
    if ls.len() == 0 {
        Seq::empty()
    } else {
        let rest = device_lines(ls.drop_last());
        if is_device_line(ls.last()) {
            rest.push(trim(ls.last()))
        } else {
            rest
        }
    }
}

fn trim_vec(v: &Vec<char>) -> (r: Vec<char>)
    ensures
        r@ == trim(v@),
{
    let (a, b) = trim_bounds(v);
    slice_chars(v, a, b)
}

/// The devices listed in the output of `llama-server --list-devices`, e.g.
/// `CUDA0: NVIDIA GeForce RTX 3090 (24576 MiB)`.
pub fn server_device_lines(output: &str) -> (r: Vec<String>)
    ensures
        Seq::new(r@.len(), |i: int| r@[i]@) == device_lines(lines(output@)),
{
    let ls = lines_of(&chars_of(output));
    let ghost all = views_of(ls@);
    let colon = chars_of(":");
    let heading = chars_of("Available devices");
    let mut out: Vec<String> = Vec::new();
    let mut i: usize = 0;
    assert(all.take(0) =~= Seq::<Seq<char>>::empty());
    assert(Seq::new(out@.len(), |k: int| out@[k]@) =~= Seq::<Seq<char>>::empty());
    while i < ls.len()
        invariant
            0 <= i <= ls@.len(),
            all == views_of(ls@),
            colon@ == ":"@,
            heading@ == "Available devices"@,
            Seq::new(out@.len(), |k: int| out@[k]@) == device_lines(all.take(i as int)),
        decreases ls@.len() - i,
    {
        let line = &ls[i];
        assert(all.take(i + 1).drop_last() =~= all.take(i as int));
        assert(all.take(i + 1).last() == line@);
        let ghost before = Seq::new(out@.len(), |k: int| out@[k]@);
        let t = trim_vec(line);
        if line.len() > 0 && white_space(line[0]) && contains_chars(&t, &colon) && !contains_chars(
            line,
            &heading,
        ) {
            out.push(string_from_chars(&t));
            assert(Seq::new(out@.len(), |k: int| out@[k]@) =~= before.push(t@));
        }
        i += 1;
    }
    assert(all.take(ls@.len() as int) =~= all);
    out
}

/// The device id at the start of a device line: the text before the first
/// `:`, trimmed.
pub fn device_id(line: &str) -> (r: String)
    ensures
        r@ == trim(split_char(line@, ':')[0]),
{
    let pieces = split_chars(&chars_of(line), ':');
    assert(split_char(line@, ':').len() > 0);
    assert(views_of(pieces@)[0] == pieces@[0]@);
    let first = trim_vec(&pieces[0]);
    string_from_chars(&first)
}

/// The vendor named on a device line, which picks the colour of its marker.
#[derive(Debug, Clone, Copy, PartialEq, Eq, Structural)]
pub enum DeviceVendor {
    Amd,
    Nvidia,
    Intel,
    Other,
}

/// The vendor of a device line: `AMD` is looked for first, then `NVIDIA`,
/// then `Intel` or `INTEL`.
pub open spec fn device_vendor_spec(line: Seq<char>) -> DeviceVendor {
    if contains(line, "AMD"@) {
        DeviceVendor::Amd
    } else if contains(line, "NVIDIA"@) {
        DeviceVendor::Nvidia
    } else if contains(line, "Intel"@) || contains(line, "INTEL"@) {
        DeviceVendor::Intel
    } else {
        DeviceVendor::Other
    }
}

pub fn device_vendor(line: &str) -> (r: DeviceVendor)
    ensures
        r == device_vendor_spec(line@),
{
    let l = chars_of(line);
    if contains_chars(&l, &chars_of("AMD")) {
        DeviceVendor::Amd
    } else if contains_chars(&l, &chars_of("NVIDIA")) {
        DeviceVendor::Nvidia
    } else if contains_chars(&l, &chars_of("Intel")) || contains_chars(&l, &chars_of("INTEL")) {
        DeviceVendor::Intel
    } else {
        DeviceVendor::Other
    }
}

// ---------------------------------------------------------------------------
// The `--device` list.
// ---------------------------------------------------------------------------

/// The comma-separated list `devices` holds `entry` (entries may be padded
/// with white space).
pub open spec fn device_listed_spec(devices: Seq<char>, entry: Seq<char>) -> bool {
    exists|k: int|
        0 <= k < split_char(devices, ',').len() && trim(#[trigger] split_char(devices, ',')[k])
            == entry
}

pub fn device_listed(devices: &str, entry: &str) -> (r: bool)
    ensures
        r == device_listed_spec(devices@, entry@),
{
    let pieces = split_chars(&chars_of(devices), ',');
    let e = chars_of(entry);
    let mut i: usize = 0;
    while i < pieces.len()
        invariant
            0 <= i <= pieces@.len(),
            views_of(pieces@) == split_char(devices@, ','),
            e@ == entry@,
            forall|k: int| 0 <= k < i ==> trim(#[trigger] split_char(devices@, ',')[k]) != entry@,
        decreases pieces@.len() - i,
    {
        assert(split_char(devices@, ',')[i as int] == pieces@[i as int]@);
        if same_chars(&trim_vec(&pieces[i]), &e) {
            return true;
        }
        i += 1;
    }
    false
}

/// `devices` with `entry` appended: just `entry` when the list is empty.
pub open spec fn add_device_spec(devices: Seq<char>, entry: Seq<char>) -> Seq<char> {
    if devices.len() == 0 {
        entry
    } else {
        devices + ","@ + entry
    }
}

pub fn add_device(devices: &str, entry: &str) -> (r: String)
    ensures
        r@ == add_device_spec(devices@, entry@),
{
    if devices.is_empty() {
        entry.to_string()
    } else {
        let with_comma = concat_text(devices, ",");
        concat_text(with_comma.as_str(), entry)
    }
}

/// Adding an entry to the device list makes the list hold that entry, when
/// the entry itself has no comma and no surrounding white space.
pub proof fn lemma_added_device_listed(devices: Seq<char>, entry: Seq<char>)
    requires
        forall|k: int| 0 <= k < entry.len() ==> entry[k] != ',',
        trim(entry) == entry,
    ensures
        device_listed_spec(add_device_spec(devices, entry), entry),
{
    let r = add_device_spec(devices, entry);
    if devices.len() == 0 {
        crate::text::lemma_find_char(r, ',', r.len() as int);
        assert(split_char(r, ',')[0] == r);
    } else {
        reveal_strlit(",");
        lemma_split_last_piece(devices + ","@, entry);
        let pieces = split_char(r, ',');
        assert(trim(pieces[pieces.len() - 1]) == entry);
    }
}

/// The panel's add button: `entry` is appended unless the list already
/// holds it (the button is disabled then).
pub open spec fn add_unlisted_device_spec(devices: Seq<char>, entry: Seq<char>) -> Seq<char> {
    if device_listed_spec(devices, entry) {
        devices
    } else {
        add_device_spec(devices, entry)
    }
}

pub fn add_unlisted_device(devices: &str, entry: &str) -> (r: String)
    ensures
        r@ == add_unlisted_device_spec(devices@, entry@),
{
    if device_listed(devices, entry) {
        devices.to_string()
    } else {
        add_device(devices, entry)
    }
}

/// No entry of the comma-separated list occurs twice (entries compared
/// without their surrounding white space).
pub open spec fn device_list_unique(devices: Seq<char>) -> bool {
    forall|i: int, j: int|
        0 <= i < j < split_char(devices, ',').len() ==> trim(
            #[trigger] split_char(devices, ',')[i],
        ) != trim(#[trigger] split_char(devices, ',')[j])
}

/// Splitting `devices,entry` at commas gives the pieces of `devices` and
/// then `entry`, when `entry` has no comma.
proof fn lemma_split_append(devices: Seq<char>, entry: Seq<char>)
    requires
        forall|k: int| 0 <= k < entry.len() ==> entry[k] != ',',
    ensures
        split_char(devices + seq![','] + entry, ',') == split_char(devices, ',').push(entry),
    decreases devices.len(),
{
    let s = devices + seq![','] + entry;
    crate::text::lemma_find_char_facts(devices, ',');
    let kd = find_char(devices, ',');
    assert forall|j: int| 0 <= j < kd implies s[j] != ',' by {
        assert(s[j] == devices[j]);
    }
    assert(s[kd as int] == ',');
    crate::text::lemma_find_char(s, ',', kd as int);
    crate::text::lemma_find_char(entry, ',', entry.len() as int);
    if kd < devices.len() {
        let rest = devices.skip(kd as int + 1);
        assert(s.take(kd as int) =~= devices.take(kd as int));
        assert(s.skip(kd as int + 1) =~= rest + seq![','] + entry);
        lemma_split_append(rest, entry);
        assert(split_char(s, ',') =~= split_char(devices, ',').push(entry));
    } else {
        assert(s.take(kd as int) =~= devices);
        assert(s.skip(kd as int + 1) =~= entry);
        assert(split_char(entry, ',') =~= seq![entry]);
        assert(split_char(devices, ',') =~= seq![devices]);
        assert(split_char(s, ',') =~= seq![devices, entry]);
    }
}

/// Adding device entries with the panel's button keeps a list free of
/// duplicates free of them, when entries have no comma and no surrounding
/// white space (as device ids and `RPC<n>` entries do not).
pub proof fn lemma_add_unlisted_device_keeps_list_unique(devices: Seq<char>, entry: Seq<char>)
    requires
        device_list_unique(devices),
        forall|k: int| 0 <= k < entry.len() ==> entry[k] != ',',
        trim(entry) == entry,
    ensures
        device_list_unique(add_unlisted_device_spec(devices, entry)),
{
    if !device_listed_spec(devices, entry) {
        let r = add_device_spec(devices, entry);
        if devices.len() == 0 {
            crate::text::lemma_find_char(r, ',', r.len() as int);
            assert(split_char(r, ',') =~= seq![r]);
        } else {
            reveal_strlit(",");
            assert(r =~= devices + seq![','] + entry);
            lemma_split_append(devices, entry);
            let old_pieces = split_char(devices, ',');
            let pieces = split_char(r, ',');
            assert forall|i: int, j: int|
                0 <= i < j < pieces.len() implies trim(#[trigger] pieces[i]) != trim(
                #[trigger] pieces[j],
            ) by {
                if j < old_pieces.len() {
                    assert(pieces[i] == old_pieces[i]);
                    assert(pieces[j] == old_pieces[j]);
                } else {
                    assert(pieces[j] == entry);
                    assert(pieces[i] == old_pieces[i]);
                    if trim(old_pieces[i]) == entry {
                        assert(device_listed_spec(devices, entry));
                    }
                }
            }
        }
    }
}

// ---------------------------------------------------------------------------
// RPC nodes (`--rpc`) as devices.
// ---------------------------------------------------------------------------

/// The non-empty trimmed pieces, in order.
pub open spec fn nonempty_trimmed(pieces: Seq<Seq<char>>) -> Seq<Seq<char>>
    decreases pieces.len(),
{
    if pieces.len() == 0 {
        Seq::empty()
    } else {
        let rest = nonempty_trimmed(pieces.drop_last());
        if trim(pieces.last()).len() > 0 {
            rest.push(trim(pieces.last()))
        } else {
            rest
        }
    }
}

/// The RPC node addresses of a comma-separated `--rpc` list.
pub open spec fn rpc_nodes(endpoints: Seq<char>) -> Seq<Seq<char>> {
    nonempty_trimmed(split_char(endpoints, ','))
}

/// `s` without its trailing `+` signs.
pub open spec fn strip_plus(s: Seq<char>) -> Seq<char>
    decreases s.len(),
{
    if s.len() > 0 && s.last() == '+' {
        strip_plus(s.drop_last())
    } else {
        s
    }
}

/// One RPC device offered for `--device`: `RPC<index>` on the node at
/// `address`. A node written with a trailing `+` has two GPUs and is offered
/// twice.
#[derive(Debug, Clone)]
pub struct RpcDevice {
    pub index: usize,
    pub address: String,
    pub multi_gpu: bool,
}

/// The devices of `nodes`, numbered from `start`.
pub open spec fn rpc_devices_from(nodes: Seq<Seq<char>>, start: nat) -> Seq<(nat, Seq<char>, bool)>
    decreases nodes.len(),
{
    if nodes.len() == 0 {
        Seq::empty()
    } else {
        let a = nodes[0];
        let addr = strip_plus(a);
        if ends_with(a, "+"@) {
            seq![(start, addr, true), (start + 1, addr, true)] + rpc_devices_from(
                nodes.drop_first(),
                start + 2,
            )
        } else {
            seq![(start, addr, false)] + rpc_devices_from(nodes.drop_first(), start + 1)
        }
    }
}

pub open spec fn rpc_device_views(v: Seq<RpcDevice>) -> Seq<(nat, Seq<char>, bool)> {
    Seq::new(v.len(), |i: int| (v[i].index as nat, v[i].address@, v[i].multi_gpu))
}

proof fn lemma_split_len(s: Seq<char>, c: char)
    ensures
        split_char(s, c).len() <= s.len() + 1,
    decreases s.len(),
{
    crate::text::lemma_find_char_facts(s, c);
    let k = find_char(s, c);
    if k < s.len() {
        lemma_split_len(s.skip(k as int + 1), c);
    }
}

proof fn lemma_nonempty_trimmed_len(pieces: Seq<Seq<char>>)
    ensures
        nonempty_trimmed(pieces).len() <= pieces.len(),
    decreases pieces.len(),
{
    if pieces.len() > 0 {
        lemma_nonempty_trimmed_len(pieces.drop_last());
    }
}

fn strip_plus_vec(v: &Vec<char>) -> (r: Vec<char>)
    ensures
        r@ == strip_plus(v@),
{
    let mut j = v.len();
    assert(v@.subrange(0, j as int) =~= v@);
    while j > 0 && v[j - 1] == '+'
        invariant
            j <= v@.len(),
            strip_plus(v@) == strip_plus(v@.subrange(0, j as int)),
        decreases j,
    {
        assert(v@.subrange(0, j as int).drop_last() =~= v@.subrange(0, j - 1));
        j -= 1;
    }
    slice_chars(v, 0, j)
}

/// The RPC devices of a comma-separated `--rpc` list, numbered from 0.
pub fn rpc_devices(endpoints: &str) -> (r: Vec<RpcDevice>)
    requires
        endpoints@.len() <= usize::MAX / 4,
    ensures
        rpc_device_views(r@) == rpc_devices_from(rpc_nodes(endpoints@), 0),
{
    let pieces = split_chars(&chars_of(endpoints), ',');
    let ghost ps = views_of(pieces@);
    // The trimmed, non-empty node addresses.
    let mut nodes: Vec<Vec<char>> = Vec::new();
    let mut i: usize = 0;
    assert(ps.take(0) =~= Seq::<Seq<char>>::empty());
    assert(views_of(nodes@) =~= Seq::<Seq<char>>::empty());
    while i < pieces.len()
        invariant
            0 <= i <= pieces@.len(),
            ps == views_of(pieces@),
            views_of(nodes@) == nonempty_trimmed(ps.take(i as int)),
        decreases pieces@.len() - i,
    {
        assert(ps.take(i + 1).drop_last() =~= ps.take(i as int));
        assert(ps.take(i + 1).last() == pieces@[i as int]@);
        let t = trim_vec(&pieces[i]);
        if t.len() > 0 {
            let ghost before = views_of(nodes@);
            nodes.push(t);
            assert(views_of(nodes@) =~= before.push(trim(pieces@[i as int]@)));
        }
        i += 1;
    }
    assert(ps.take(pieces@.len() as int) =~= ps);
    let ghost ns = views_of(nodes@);
    proof {
        lemma_split_len(endpoints@, ',');
        lemma_nonempty_trimmed_len(ps);
    }
    let plus = chars_of("+");
    let mut out: Vec<RpcDevice> = Vec::new();
    let mut idx: usize = 0;
    let mut k: usize = 0;
    assert(ns.skip(0) =~= ns);
    while k < nodes.len()
        invariant
            0 <= k <= nodes@.len(),
            ns == views_of(nodes@),
            ns == rpc_nodes(endpoints@),
            nodes@.len() <= endpoints@.len() + 1,
            endpoints@.len() <= usize::MAX / 4,
            idx <= 2 * k,
            plus@ == "+"@,
            rpc_devices_from(ns, 0) == rpc_device_views(out@) + rpc_devices_from(
                ns.skip(k as int),
                idx as nat,
            ),
        decreases nodes@.len() - k,
    {
        let a = &nodes[k];
        let ghost rest = ns.skip(k as int);
        assert(rest[0] == a@);
        assert(rest.drop_first() =~= ns.skip(k + 1));
        let addr = string_from_chars(&strip_plus_vec(a));
        let ghost before = rpc_device_views(out@);
        if ends_with_chars(a, &plus) {
            out.push(RpcDevice { index: idx, address: addr.clone(), multi_gpu: true });
            out.push(RpcDevice { index: idx + 1, address: addr, multi_gpu: true });
            assert(rpc_device_views(out@) =~= before + seq![
                (idx as nat, strip_plus(a@), true),
                ((idx + 1) as nat, strip_plus(a@), true),
            ]);
            idx += 2;
        } else {
            out.push(RpcDevice { index: idx, address: addr, multi_gpu: false });
            assert(rpc_device_views(out@) =~= before + seq![(idx as nat, strip_plus(a@), false)]);
            idx += 1;
        }
        k += 1;
    }
    assert(ns.skip(nodes@.len() as int) =~= Seq::<Seq<char>>::empty());
    assert(rpc_device_views(out@) + Seq::<(nat, Seq<char>, bool)>::empty() =~= rpc_device_views(
        out@,
    ));
    out
}

/// The last piece of `prefix + entry` is `entry` when `prefix` ends with the
/// separator and `entry` holds none.
proof fn lemma_split_last_piece(prefix: Seq<char>, entry: Seq<char>)
    requires
        prefix.len() > 0,
        prefix.last() == ',',
        forall|k: int| 0 <= k < entry.len() ==> entry[k] != ',',
    ensures
        split_char(prefix + entry, ',').len() > 0,
        split_char(prefix + entry, ',').last() == entry,
    decreases prefix.len(),
{
    let s = prefix + entry;
    crate::text::lemma_find_char_facts(s, ',');
    let k = find_char(s, ',');
    assert(s[prefix.len() - 1] == ',');
    assert(k <= prefix.len() - 1);
    let rest = s.skip(k as int + 1);
    assert(split_char(s, ',') == seq![s.take(k as int)] + split_char(rest, ','));
    if k + 1 == prefix.len() {
        assert(rest =~= entry);
        crate::text::lemma_find_char(entry, ',', entry.len() as int);
        assert(split_char(rest, ',') == seq![entry]);
    } else {
        let p2 = prefix.skip(k as int + 1);
        assert(rest =~= p2 + entry);
        assert(p2.last() == prefix.last());
        lemma_split_last_piece(p2, entry);
    }
    let t = split_char(rest, ',');
    assert((seq![s.take(k as int)] + t).last() == t.last());
}

} // verus!
