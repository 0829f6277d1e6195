//! Progressive fallback: when a driver fails for good, the alternatives for
//! the device's category, in order of preference.
use vstd::prelude::*;
use crate::drivers::base::device::{Device, DeviceState};
use crate::drivers::base::driver::DeviceType;
use crate::text::str_eq;

verus! {

/// One alternative driver of a chain.
#[derive(Debug, Clone, Copy)]
pub struct FallbackEntry {
    pub driver_name: &'static str,
    /// Lower is preferred.
    pub priority: u8,
    /// The entry of last resort.
    pub is_last_resort: bool,
    pub description: &'static str,
}

/// The ordered alternatives for one device type.
#[derive(Debug)]
pub struct FallbackChain {
    pub device_type: DeviceType,
    pub entries: Vec<FallbackEntry>,
}

/// The registered chains.
pub struct FallbackRegistry {
    pub chains: Vec<FallbackChain>,
}

/// Abstract view of an entry: name, priority, last resort, description.
pub open spec fn entry_view(e: FallbackEntry) -> (Seq<char>, u8, bool, Seq<char>) {
    (e.driver_name@, e.priority, e.is_last_resort, e.description@)
}

/// Abstract view of the entries of a chain.
pub open spec fn entries_view(s: Seq<FallbackEntry>) -> Seq<(Seq<char>, u8, bool, Seq<char>)> {
    s.map_values(|e: FallbackEntry| entry_view(e))
}

/// A progressive chain: options in order of preference (priorities never
/// decrease), and the option of last resort last and only there.
pub open spec fn progressive(v: Seq<(Seq<char>, u8, bool, Seq<char>)>) -> bool {
    &&& v.len() > 0
    &&& forall|a: int, b: int| 0 <= a < b < v.len() ==> (#[trigger] v[a]).1 <= (#[trigger] v[b]).1
    &&& v.last().2
    &&& forall|a: int| 0 <= a < v.len() - 1 ==> !(#[trigger] v[a]).2
}

/// Display: vendor drivers, then generic VESA/Bochs, framebuffer, text mode.
pub open spec fn display_chain_view() -> Seq<(Seq<char>, u8, bool, Seq<char>)> {
    seq![
        ("nvidia-gpu"@, 1u8, false, "NVIDIA proprietário (melhor performance)"@),
        ("intel-gpu"@, 2u8, false, "Intel HD Graphics"@),
        ("amd-gpu"@, 2u8, false, "AMD/ATI Graphics"@),
        ("vesa-generic"@, 3u8, false, "VESA genérico (compatibilidade)"@),
        ("bochs-vga"@, 3u8, false, "Bochs/QEMU VGA"@),
        ("framebuffer-simple"@, 4u8, false, "Framebuffer simples (GOP/LFB)"@),
        ("text-mode"@, 5u8, true, "Modo texto 80x25 (último recurso)"@),
    ]
}

/// Storage: NVMe, AHCI, VirtIO, ATA, USB, then a RAM disk.
pub open spec fn storage_chain_view() -> Seq<(Seq<char>, u8, bool, Seq<char>)> {
    seq![
        ("nvme-driver"@, 1u8, false, "NVMe SSD (máxima performance)"@),
        ("ahci-driver"@, 2u8, false, "AHCI/SATA"@),
        ("virtio-blk"@, 2u8, false, "VirtIO Block (VMs)"@),
        ("ata-driver"@, 3u8, false, "ATA/IDE legado"@),
        ("usb-mass-storage"@, 4u8, false, "USB Mass Storage"@),
        ("ramdisk"@, 5u8, true, "RAM Disk (dados em memória!)"@),
    ]
}

/// Network: vendor drivers, VirtIO, then loopback only.
pub open spec fn network_chain_view() -> Seq<(Seq<char>, u8, bool, Seq<char>)> {
    seq![
        ("intel-e1000"@, 1u8, false, "Intel e1000/e1000e"@),
        ("realtek-rtl8139"@, 2u8, false, "Realtek RTL8139/8169"@),
        ("virtio-net"@, 2u8, false, "VirtIO Network"@),
        ("loopback"@, 5u8, true, "Loopback only (sem rede externa)"@),
    ]
}

fn entry(driver_name: &'static str, priority: u8, is_last_resort: bool, description: &'static str) -> (e: FallbackEntry)
    ensures
        entry_view(e) == (driver_name@, priority, is_last_resort, description@),
{
    FallbackEntry { driver_name, priority, is_last_resort, description }
}

/// The display chain.
fn display_fallback_chain() -> (c: FallbackChain)
    ensures
        c.device_type == DeviceType::Display,
        entries_view(c.entries@) == display_chain_view(),
{
    let mut v: Vec<FallbackEntry> = Vec::new();
    v.push(entry("nvidia-gpu", 1, false, "NVIDIA proprietário (melhor performance)"));
    v.push(entry("intel-gpu", 2, false, "Intel HD Graphics"));
    v.push(entry("amd-gpu", 2, false, "AMD/ATI Graphics"));
    v.push(entry("vesa-generic", 3, false, "VESA genérico (compatibilidade)"));
    v.push(entry("bochs-vga", 3, false, "Bochs/QEMU VGA"));
    v.push(entry("framebuffer-simple", 4, false, "Framebuffer simples (GOP/LFB)"));
    v.push(entry("text-mode", 5, true, "Modo texto 80x25 (último recurso)"));
    assert(entries_view(v@) =~= display_chain_view());
    FallbackChain { device_type: DeviceType::Display, entries: v }
}

/// The storage chain.
fn storage_fallback_chain() -> (c: FallbackChain)
    ensures
        c.device_type == DeviceType::Storage,
        entries_view(c.entries@) == storage_chain_view(),
{
    let mut v: Vec<FallbackEntry> = Vec::new();
    v.push(entry("nvme-driver", 1, false, "NVMe SSD (máxima performance)"));
    v.push(entry("ahci-driver", 2, false, "AHCI/SATA"));
    v.push(entry("virtio-blk", 2, false, "VirtIO Block (VMs)"));
    v.push(entry("ata-driver", 3, false, "ATA/IDE legado"));
    v.push(entry("usb-mass-storage", 4, false, "USB Mass Storage"));
    v.push(entry("ramdisk", 5, true, "RAM Disk (dados em memória!)"));
    assert(entries_view(v@) =~= storage_chain_view());
    FallbackChain { device_type: DeviceType::Storage, entries: v }
}

/// The network chain.
fn network_fallback_chain() -> (c: FallbackChain)
    ensures
        c.device_type == DeviceType::Network,
        entries_view(c.entries@) == network_chain_view(),
{
    let mut v: Vec<FallbackEntry> = Vec::new();
    v.push(entry("intel-e1000", 1, false, "Intel e1000/e1000e"));
    v.push(entry("realtek-rtl8139", 2, false, "Realtek RTL8139/8169"));
    v.push(entry("virtio-net", 2, false, "VirtIO Network"));
    v.push(entry("loopback", 5, true, "Loopback only (sem rede externa)"));
    assert(entries_view(v@) =~= network_chain_view());
    FallbackChain { device_type: DeviceType::Network, entries: v }
}

/// Index of the first chain for `t`, or the length when there is none.
pub open spec fn chain_index(s: Seq<FallbackChain>, t: DeviceType) -> int
    decreases s.len(),
{
    if s.len() == 0 {
        0
    } else if s[0].device_type == t {
        0
    } else {
        1 + chain_index(s.drop_first(), t)
    }
}

proof fn lemma_chain_index(s: Seq<FallbackChain>, t: DeviceType, i: int)
    requires
        0 <= i <= s.len(),
        forall|k: int| 0 <= k < i ==> #[trigger] s[k].device_type != t,
        i == s.len() || s[i].device_type == t,
    ensures
        chain_index(s, t) == i,
    decreases s.len(),
{
    if s.len() > 0 && i > 0 {
        assert forall|k: int| 0 <= k < i - 1 implies #[trigger] s.drop_first()[k].device_type != t by {
            assert(s.drop_first()[k] == s[k + 1]);
        }
        lemma_chain_index(s.drop_first(), t, i - 1);
    }
}

fn find_chain(chains: &Vec<FallbackChain>, t: DeviceType) -> (i: usize)
    ensures
        i == chain_index(chains@, t),
        i <= chains@.len(),
        i < chains@.len() ==> chains@[i as int].device_type == t,
{
    let mut i: usize = 0;
    while i < chains.len() && chains[i].device_type != t
        invariant
            0 <= i <= chains@.len(),
            forall|k: int| 0 <= k < i ==> #[trigger] chains@[k].device_type != t,
        decreases chains@.len() - i,
    {
        i = i + 1;
    }
    proof {
        lemma_chain_index(chains@, t, i as int);
    }
    i
}

impl FallbackRegistry {
    /// An empty registry.
    pub fn new() -> (r: FallbackRegistry)
        ensures
            r.chains@.len() == 0,
    {
        FallbackRegistry { chains: Vec::new() }
    }
}

/// Registers the display, storage and network chains, in that order.
pub fn init(reg: &mut FallbackRegistry)
    ensures
        final(reg).chains@.len() == old(reg).chains@.len() + 3,
        forall|k: int| 0 <= k < old(reg).chains@.len() ==> #[trigger] final(reg).chains@[k] == old(reg).chains@[k],
        ({
            let n = old(reg).chains@.len() as int;
            let s = final(reg).chains@;
            &&& s[n].device_type == DeviceType::Display
            &&& entries_view(s[n].entries@) == display_chain_view()
            &&& s[n + 1].device_type == DeviceType::Storage
            &&& entries_view(s[n + 1].entries@) == storage_chain_view()
            &&& s[n + 2].device_type == DeviceType::Network
            &&& entries_view(s[n + 2].entries@) == network_chain_view()
            &&& progressive(entries_view(s[n].entries@))
            &&& progressive(entries_view(s[n + 1].entries@))
            &&& progressive(entries_view(s[n + 2].entries@))
        }),
{
    reg.chains.push(display_fallback_chain());
    reg.chains.push(storage_fallback_chain());
    reg.chains.push(network_fallback_chain());
    proof {
        let d = display_chain_view();
        assert forall|a: int, b: int| 0 <= a < b < d.len() implies (#[trigger] d[a]).1 <= (#[trigger] d[b]).1 by {}
        assert forall|a: int| 0 <= a < d.len() - 1 implies !(#[trigger] d[a]).2 by {}
        let st = storage_chain_view();
        assert forall|a: int, b: int| 0 <= a < b < st.len() implies (#[trigger] st[a]).1 <= (#[trigger] st[b]).1 by {}
        assert forall|a: int| 0 <= a < st.len() - 1 implies !(#[trigger] st[a]).2 by {}
        let nw = network_chain_view();
        assert forall|a: int, b: int| 0 <= a < b < nw.len() implies (#[trigger] nw[a]).1 <= (#[trigger] nw[b]).1 by {}
        assert forall|a: int| 0 <= a < nw.len() - 1 implies !(#[trigger] nw[a]).2 by {}
    }
}

/// Runs the chain for `dev_type` on `dev`. No alternative driver can be
/// loaded yet, so when a chain exists every option fails and the device is
/// marked `Dead`; without a chain the device is left as it is.
pub fn try_fallback(reg: &FallbackRegistry, dev: &mut Device, dev_type: DeviceType)
    ensures
        chain_index(reg.chains@, dev_type) < reg.chains@.len() ==> {
            &&& final(dev).state == DeviceState::Dead
            &&& final(dev).last_status_change == (if old(dev).state != DeviceState::Dead { 0 } else { old(dev).last_status_change })
            &&& final(dev).id == old(dev).id
            &&& final(dev).name == old(dev).name
            &&& final(dev).driver == old(dev).driver
            &&& final(dev).parent == old(dev).parent
            &&& final(dev).children == old(dev).children
        },
        chain_index(reg.chains@, dev_type) == reg.chains@.len() ==> *final(dev) == *old(dev),
{
    let i = find_chain(&reg.chains, dev_type);
    if i == reg.chains.len() {
        return;
    }
    dev.set_state(DeviceState::Dead);
}

/// Replaces the chain for the new chain's device type: every chain of that
/// type is removed and the new one goes last.
pub fn register_chain(reg: &mut FallbackRegistry, chain: FallbackChain)
    ensures
        final(reg).chains@ == old(reg).chains@.filter(|c: FallbackChain| c.device_type != chain.device_type).push(chain),
{
    let t = chain.device_type;
    let ghost pred = |c: FallbackChain| c.device_type != t;
    let ghost orig = reg.chains@;
    let mut rest: Vec<FallbackChain> = Vec::new();
    std::mem::swap(&mut rest, &mut reg.chains);
    let mut kept: Vec<FallbackChain> = Vec::new();
    let ghost mut k: int = 0;
    while rest.len() > 0
        invariant
            pred == (|c: FallbackChain| c.device_type != t),
            0 <= k <= orig.len(),
            rest@ == orig.skip(k),
            kept@ == orig.take(k).filter(pred),
        decreases rest@.len(),
    {
        proof {
            crate::seqs::lemma_take_succ(orig, k);
            crate::seqs::lemma_filter_push(orig.take(k), orig[k], pred);
        }
        let c = rest.remove(0);
        if c.device_type != t {
            kept.push(c);
        }
        proof {
            k = k + 1;
            assert(rest@ =~= orig.skip(k));
        }
    }
    assert(orig.take(k) =~= orig);
    kept.push(chain);
    reg.chains = kept;
}

/// A lookup gives back a registration: once a chain is registered, the
/// chain found for its device type is that chain, whatever chains of that
/// type were there before.
pub proof fn lemma_registered_chain_is_found(chains: Seq<FallbackChain>, chain: FallbackChain)
    ensures
        ({
            let after = chains.filter(|c: FallbackChain| c.device_type != chain.device_type).push(chain);
            &&& chain_index(after, chain.device_type) == after.len() - 1
            &&& after[after.len() - 1] == chain
        }),
{
    let t = chain.device_type;
    let pred = |c: FallbackChain| c.device_type != t;
    let kept = chains.filter(pred);
    let after = kept.push(chain);
    assert forall|k: int| 0 <= k < kept.len() implies #[trigger] after[k].device_type != t by {
        chains.lemma_filter_pred(pred, k);
        assert(after[k] == kept[k]);
    }
    lemma_chain_index(after, t, kept.len() as int);
}

fn copy_entries(entries: &Vec<FallbackEntry>) -> (v: Vec<FallbackEntry>)
    ensures
        v@ == entries@,
{
    let mut v: Vec<FallbackEntry> = Vec::new();
    let mut i: usize = 0;
    while i < entries.len()
        invariant
            0 <= i <= entries@.len(),
            v@ == entries@.take(i as int),
        decreases entries@.len() - i,
    {
        proof {
            crate::seqs::lemma_take_succ(entries@, i as int);
        }
        v.push(entries[i]);
        i = i + 1;
    }
    assert(entries@.take(entries@.len() as int) =~= entries@);
    v
}

/// A copy of the first chain for `dev_type`, if any.
pub fn get_chain(reg: &FallbackRegistry, dev_type: DeviceType) -> (r: Option<FallbackChain>)
    ensures
        ({
            let i = chain_index(reg.chains@, dev_type);
            match r {
                Some(c) => i < reg.chains@.len() && c.device_type == dev_type
                    && c.entries@ == reg.chains@[i].entries@,
                None => i == reg.chains@.len(),
            }
        }),
{
    let i = find_chain(&reg.chains, dev_type);
    if i == reg.chains.len() {
        return None;
    }
    Some(FallbackChain { device_type: reg.chains[i].device_type, entries: copy_entries(&reg.chains[i].entries) })
}

/// Index of the first entry named `name`, or the length when there is none.
pub open spec fn entry_index(s: Seq<FallbackEntry>, name: Seq<char>) -> int
    decreases s.len(),
{
    if s.len() == 0 {
        0
    } else if s[0].driver_name@ == name {
        0
    } else {
        1 + entry_index(s.drop_first(), name)
    }
}

proof fn lemma_entry_index(s: Seq<FallbackEntry>, name: Seq<char>, i: int)
    requires
        0 <= i <= s.len(),
        forall|k: int| 0 <= k < i ==> #[trigger] s[k].driver_name@ != name,
        i == s.len() || s[i].driver_name@ == name,
    ensures
        entry_index(s, name) == i,
    decreases s.len(),
{
    if s.len() > 0 && i > 0 {
        assert forall|k: int| 0 <= k < i - 1 implies #[trigger] s.drop_first()[k].driver_name@ != name by {
            assert(s.drop_first()[k] == s[k + 1]);
        }
        lemma_entry_index(s.drop_first(), name, i - 1);
    }
}

/// The driver that would follow `current` in the chain of `t`.
pub open spec fn next_fallback(chains: Seq<FallbackChain>, t: DeviceType, current: Seq<char>) -> Option<Seq<char>> {
    let ci = chain_index(chains, t);
    if ci >= chains.len() {
        None
    } else {
        let es = chains[ci].entries@;
        let p = entry_index(es, current);
        if p + 1 < es.len() {
            Some(es[p + 1].driver_name@)
        } else {
            None
        }
    }
}

/// The driver after `current_driver` in the chain for `dev_type`: `None`
/// when there is no chain, the driver is not in it, or it is the last one.
pub fn get_next_fallback(reg: &FallbackRegistry, dev_type: DeviceType, current_driver: &str) -> (r: Option<&'static str>)
    ensures
        r matches Some(n) ==> next_fallback(reg.chains@, dev_type, current_driver@) == Some(n@),
        r is None ==> next_fallback(reg.chains@, dev_type, current_driver@) is None,
{
    let ci = find_chain(&reg.chains, dev_type);
    if ci == reg.chains.len() {
        return None;
    }
    let entries = &reg.chains[ci].entries;
    let mut p: usize = 0;
    while p < entries.len() && !str_eq(entries[p].driver_name, current_driver)
        invariant
            0 <= p <= entries@.len(),
            forall|k: int| 0 <= k < p ==> #[trigger] entries@[k].driver_name@ != current_driver@,
        decreases entries@.len() - p,
    {
        p = p + 1;
    }
    proof {
        lemma_entry_index(entries@, current_driver@, p as int);
    }
    if p == entries.len() {
        return None;
    }
    if p + 1 < entries.len() {
        Some(entries[p + 1].driver_name)
    } else {
        None
    }
}

} // verus!
