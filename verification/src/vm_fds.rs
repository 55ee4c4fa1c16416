//! The descriptors of a virtual machine's interfaces while they are handed
//! over: a configuration travels with the places of its descriptors, and gets
//! the received descriptors put in them.
use vstd::prelude::*;

use crate::text::{decimal, decimal_text, fails_with, signed_decimal, signed_decimal_text};
use crate::vm_config::NetConfig;

verus! {

/// The descriptors of an interface.
pub open spec fn fds_of(net: NetConfig) -> Option<Seq<i32>> {
    match net.fds {
        None => None,
        Some(fds) => Some(fds@),
    }
}

/// How many descriptors an interface has.
pub open spec fn fd_count(net: NetConfig) -> nat {
    match net.fds {
        None => 0,
        Some(fds) => fds@.len(),
    }
}

/// The descriptors of several interfaces, one after the other.
pub open spec fn flat_fds(nets: Seq<NetConfig>) -> Seq<i32>
    decreases nets.len(),
{
    if nets.len() == 0 {
        Seq::empty()
    } else {
        match fds_of(nets.last()) {
            None => flat_fds(nets.drop_last()),
            Some(fds) => flat_fds(nets.drop_last()) + fds,
        }
    }
}

/// Whether two interfaces differ in the values of their descriptors at most.
pub open spec fn same_but_fds(a: NetConfig, b: NetConfig) -> bool {
    &&& a == (NetConfig { fds: a.fds, ..b })
    &&& (a.fds is Some) == (b.fds is Some)
    &&& fd_count(a) == fd_count(b)
}

/// Whether several interfaces differ in the values of their descriptors at
/// most.
pub open spec fn all_same_but_fds(a: Seq<NetConfig>, b: Seq<NetConfig>) -> bool {
    a.len() == b.len() && forall|i: int|
        0 <= i < a.len() ==> same_but_fds(#[trigger] a[i], b[i])
}

proof fn lemma_flat_step(nets: Seq<NetConfig>, i: int)
    requires
        0 <= i < nets.len(),
    ensures
        flat_fds(nets.take(i + 1)) == (match fds_of(nets[i]) {
            None => flat_fds(nets.take(i)),
            Some(fds) => flat_fds(nets.take(i)) + fds,
        }),
{
    assert(nets.take(i + 1).drop_last() =~= nets.take(i));
    assert(nets.take(i + 1).last() == nets[i]);
}

proof fn lemma_flat_grows(nets: Seq<NetConfig>, i: int)
    requires
        0 <= i <= nets.len(),
    ensures
        flat_fds(nets.take(i)).len() <= flat_fds(nets).len(),
    decreases nets.len() - i,
{
    if i < nets.len() {
        lemma_flat_step(nets, i);
        lemma_flat_grows(nets, i + 1);
    } else {
        assert(nets.take(i) =~= nets);
    }
}

fn collect_fds(nets: &Vec<NetConfig>) -> (all: Vec<i32>)
    ensures
        all@ == flat_fds(nets@),
{
    let mut all: Vec<i32> = Vec::new();
    let mut i: usize = 0;
    assert(nets@.take(0) =~= Seq::empty());
    while i < nets.len()
        invariant
            i <= nets.len(),
            all@ == flat_fds(nets@.take(i as int)),
        decreases nets.len() - i,
    {
        proof {
            lemma_flat_step(nets@, i as int);
        }
        let ghost before = all@;
        if let Some(fds) = &nets[i].fds {
            let mut j: usize = 0;
            while j < fds.len()
                invariant
                    j <= fds.len(),
                    all@ == before + fds@.take(j as int),
                decreases fds.len() - j,
            {
                all.push(fds[j]);
                assert(fds@.take(j + 1) =~= fds@.take(j as int).push(fds@[j as int]));
                j = j + 1;
            }
            assert(fds@.take(j as int) =~= fds@);
        }
        i = i + 1;
    }
    assert(nets@.take(i as int) =~= nets@);
    all
}

fn slice_of(values: &Vec<i32>, from: usize, count: usize) -> (part: Vec<i32>)
    requires
        from + count <= values@.len(),
    ensures
        part@ == values@.subrange(from as int, from + count),
{
    let length: usize = values.len();
    let mut part: Vec<i32> = Vec::new();
    let mut j: usize = 0;
    while j < count
        invariant
            j <= count,
            length == values@.len(),
            from + count <= values@.len(),
            part@ == values@.subrange(from as int, from + j),
        decreases count - j,
    {
        part.push(values[from + j]);
        assert(values@.subrange(from as int, from + j + 1) =~= values@.subrange(
            from as int,
            from + j,
        ).push(values@[from + j]));
        j = j + 1;
    }
    part
}

fn replace_fds(nets: &mut Vec<NetConfig>, values: &Vec<i32>)
    requires
        values@.len() == flat_fds(old(nets)@).len(),
    ensures
        flat_fds(final(nets)@) == values@,
        all_same_but_fds(final(nets)@, old(nets)@),
{
    let ghost before = nets@;
    let length: usize = values.len();
    let mut offset: usize = 0;
    let mut i: usize = 0;
    assert(before.take(0) =~= Seq::empty());
    while i < nets.len()
        invariant
            i <= nets@.len(),
            nets@.len() == before.len(),
            length == values@.len(),
            values@.len() == flat_fds(before).len(),
            offset == flat_fds(before.take(i as int)).len(),
            offset <= values@.len(),
            flat_fds(nets@.take(i as int)) == values@.take(offset as int),
            forall|k: int| 0 <= k < i ==> same_but_fds(#[trigger] nets@[k], before[k]),
            forall|k: int| i <= k < before.len() ==> nets@[k] == #[trigger] before[k],
        decreases before.len() - i,
    {
        proof {
            lemma_flat_step(before, i as int);
            lemma_flat_grows(before, i + 1);
            assert(nets@[i as int] == before[i as int]);
        }
        let ghost earlier = nets@;
        let count: usize = match &nets[i].fds {
            None => 0,
            Some(fds) => fds.len(),
        };
        if nets[i].fds.is_some() {
            let part = slice_of(values, offset, count);
            nets[i].fds = Some(part);
            proof {
                assert(nets@.take(i as int) =~= earlier.take(i as int));
                lemma_flat_step(nets@, i as int);
                assert(values@.take(offset as int) + part@ =~= values@.take(offset + count));
            }
        } else {
            proof {
                lemma_flat_step(nets@, i as int);
            }
        }
        offset = offset + count;
        i = i + 1;
    }
    proof {
        assert(before.take(i as int) =~= before);
        assert(nets@.take(i as int) =~= nets@);
        assert(values@.take(offset as int) =~= values@);
    }
}

/// The places of `n` descriptors that are handed over.
pub open spec fn places(n: nat) -> Seq<i32> {
    Seq::new(n, |i: int| i as i32)
}

/// Takes the descriptors out of a machine's interfaces: each is replaced by its
/// place among those taken out.
pub fn extract_vm_fds(nets: &mut Option<Vec<NetConfig>>) -> (descriptors: Vec<i32>)
    requires
        *old(nets) matches Some(list) ==> flat_fds(list@).len() <= i32::MAX,
    ensures
        match (*old(nets), *final(nets)) {
            (Some(before), Some(after)) => descriptors@ == flat_fds(before@) && flat_fds(after@)
                == places(flat_fds(before@).len()) && all_same_but_fds(after@, before@),
            (None, None) => descriptors@.len() == 0,
            _ => false,
        },
{
    let mut list = match nets.take() {
        None => return Vec::new(),
        Some(list) => list,
    };
    let descriptors = collect_fds(&list);
    let mut slots: Vec<i32> = Vec::new();
    let mut i: usize = 0;
    while i < descriptors.len()
        invariant
            i <= descriptors@.len(),
            descriptors@.len() <= i32::MAX,
            slots@ == places(i as nat),
        decreases descriptors@.len() - i,
    {
        slots.push(i as i32);
        assert(places((i + 1) as nat) =~= places(i as nat).push(i as i32));
        i = i + 1;
    }
    replace_fds(&mut list, &slots);
    *nets = Some(list);
    descriptors
}

/// Why the place at `at` cannot be filled, if it cannot.
pub open spec fn slot_fault(slots: Seq<i32>, at: int, received: nat) -> Option<Seq<char>> {
    let slot = slots[at];
    if slot < 0 {
        Some("negative CreateVm FD slot "@ + signed_decimal(slot as int))
    } else if slots.take(at).contains(slot) {
        Some("duplicate CreateVm FD slot "@ + decimal(slot as nat))
    } else if slot >= received {
        Some(
            "CreateVm FD slot "@ + decimal(slot as nat) + " exceeds "@ + decimal(received)
                + " rights"@,
        )
    } else {
        None
    }
}

/// The first place, from `from` on, that cannot be filled.
pub open spec fn first_bad_slot(slots: Seq<i32>, received: nat, from: int) -> int
    decreases slots.len() - from,
{
    if from < 0 || from >= slots.len() {
        slots.len() as int
    } else if slot_fault(slots, from, received) is Some {
        from
    } else {
        first_bad_slot(slots, received, from + 1)
    }
}

/// The descriptors once the first `n` places are filled.
pub open spec fn filled(slots: Seq<i32>, descriptors: Seq<i32>, n: int) -> Seq<i32> {
    Seq::new(
        slots.len(),
        |i: int|
            if i < n {
                descriptors[slots[i] as int]
            } else {
                slots[i]
            },
    )
}

/// Why received descriptors cannot be installed, if they cannot.
pub open spec fn install_fault(slots: Seq<i32>, received: nat) -> Option<Seq<char>> {
    let bad = first_bad_slot(slots, received, 0);
    if slots.len() != received {
        Some(
            "CreateVm expected "@ + decimal(slots.len()) + " descriptors but received "@ + decimal(
                received,
            ),
        )
    } else if bad < slots.len() {
        slot_fault(slots, bad, received)
    } else {
        None
    }
}

/// The descriptors after an installation: where a place cannot be filled, those
/// before it are.
pub open spec fn installed(slots: Seq<i32>, descriptors: Seq<i32>) -> Seq<i32> {
    if slots.len() != descriptors.len() {
        slots
    } else {
        filled(slots, descriptors, first_bad_slot(slots, descriptors.len(), 0))
    }
}

fn seen_before(slots: &Vec<i32>, at: usize) -> (r: bool)
    requires
        at < slots@.len(),
    ensures
        r == slots@.take(at as int).contains(slots@[at as int]),
{
    let mut i: usize = 0;
    while i < at
        invariant
            i <= at < slots@.len(),
            forall|k: int| 0 <= k < i ==> slots@[k] != slots@[at as int],
        decreases at - i,
    {
        if slots[i] == slots[at] {
            assert(slots@.take(at as int)[i as int] == slots@[at as int]);
            return true;
        }
        i = i + 1;
    }
    false
}

fn check_slot(slots: &Vec<i32>, at: usize, received: usize) -> (r: Result<(), String>)
    requires
        at < slots@.len(),
    ensures
        crate::target::passes_unless(r, slot_fault(slots@, at as int, received as nat)),
{
    let slot: i32 = slots[at];
    if slot < 0 {
        return Err(
            "negative CreateVm FD slot ".to_owned().concat(
                signed_decimal_text(slot as i64).as_str(),
            ),
        );
    }
    if seen_before(slots, at) {
        return Err(
            "duplicate CreateVm FD slot ".to_owned().concat(decimal_text(slot as u128).as_str()),
        );
    }
    if slot as usize >= received {
        return Err(
            "CreateVm FD slot ".to_owned().concat(decimal_text(slot as u128).as_str()).concat(
                " exceeds ",
            ).concat(decimal_text(received as u128).as_str()).concat(" rights"),
        );
    }
    Ok(())
}

/// The descriptors of a machine's interfaces.
pub open spec fn machine_fds(nets: Option<Vec<NetConfig>>) -> Seq<i32> {
    match nets {
        None => Seq::empty(),
        Some(list) => flat_fds(list@),
    }
}

/// Puts received descriptors into the places of a machine's interfaces. Every
/// place has to be there once, and every descriptor needs one.
pub fn install_vm_fds(nets: &mut Option<Vec<NetConfig>>, descriptors: &Vec<i32>) -> (r: Result<
    (),
    String,
>)
    ensures
        crate::target::passes_unless(
            r,
            install_fault(machine_fds(*old(nets)), descriptors@.len()),
        ),
        machine_fds(*final(nets)) == installed(machine_fds(*old(nets)), descriptors@),
        match (*old(nets), *final(nets)) {
            (Some(before), Some(after)) => all_same_but_fds(after@, before@),
            (None, None) => true,
            _ => false,
        },
{
    let mut list: Vec<NetConfig> = Vec::new();
    let some = nets.is_some();
    match nets.take() {
        None => {
            assert(flat_fds(list@) =~= Seq::empty());
        },
        Some(found) => {
            list = found;
        },
    }
    let slots = collect_fds(&list);
    if slots.len() != descriptors.len() {
        if some {
            *nets = Some(list);
        }
        return Err(
            "CreateVm expected ".to_owned().concat(
                decimal_text(slots.len() as u128).as_str(),
            ).concat(" descriptors but received ").concat(
                decimal_text(descriptors.len() as u128).as_str(),
            ),
        );
    }
    let ghost received = descriptors@.len();
    let mut values: Vec<i32> = Vec::new();
    let mut failure: Option<String> = None;
    let mut i: usize = 0;
    while i < slots.len() && failure.is_none()
        invariant
            i <= slots@.len(),
            received == descriptors@.len(),
            slots@.len() == received,
            values@.len() == i,
            forall|k: int|
                0 <= k < i ==> #[trigger] values@[k] == descriptors@[slots@[k] as int],
            match failure {
                None => first_bad_slot(slots@, received, 0) == first_bad_slot(
                    slots@,
                    received,
                    i as int,
                ),
                Some(message) => i < slots@.len() && first_bad_slot(slots@, received, 0) == i
                    && slot_fault(slots@, i as int, received) == Some(message@),
            },
        decreases slots@.len() - i + (if failure is None {
            1int
        } else {
            0int
        }),
    {
        match check_slot(&slots, i, descriptors.len()) {
            Err(message) => {
                failure = Some(message);
            },
            Ok(()) => {
                let ghost earlier = values@;
                values.push(descriptors[slots[i] as usize]);
                assert forall|k: int| 0 <= k < i + 1 implies #[trigger] values@[k]
                    == descriptors@[slots@[k] as int] by {
                    if k < i {
                        assert(values@[k] == earlier[k]);
                    }
                }
                i = i + 1;
            },
        }
    }
    let ghost filled_to = i as int;
    while i < slots.len()
        invariant
            0 <= filled_to <= i <= slots@.len(),
            values@.len() == i,
            slots@.len() == received,
            received == descriptors@.len(),
            forall|k: int|
                0 <= k < filled_to ==> #[trigger] values@[k] == descriptors@[slots@[k] as int],
            forall|k: int| filled_to <= k < i ==> #[trigger] values@[k] == slots@[k],
        decreases slots@.len() - i,
    {
        let ghost earlier = values@;
        values.push(slots[i]);
        assert forall|k: int| filled_to <= k < i + 1 implies #[trigger] values@[k] == slots@[k] by {
            if k < i {
                assert(values@[k] == earlier[k]);
            }
        }
        assert forall|k: int| 0 <= k < filled_to implies #[trigger] values@[k]
            == descriptors@[slots@[k] as int] by {
            assert(values@[k] == earlier[k]);
        }
        i = i + 1;
    }
    assert(values@ =~= filled(slots@, descriptors@, filled_to));
    replace_fds(&mut list, &values);
    if some {
        *nets = Some(list);
    }
    match failure {
        None => Ok(()),
        Some(message) => Err(message),
    }
}

/// The descriptors that a machine was created with and that have to stay open
/// until it has booted.
#[derive(Debug, PartialEq, Eq)]
pub struct PendingVmFds {
    pub descriptors: Option<Vec<i32>>,
}

impl PendingVmFds {
    /// No descriptors yet.
    pub fn new() -> (pending: Self)
        ensures
            pending.descriptors is None,
    {
        PendingVmFds { descriptors: None }
    }

    /// Installs received descriptors and keeps them open. Descriptors that wait
    /// for a boot already keep others out.
    pub fn install(&mut self, nets: &mut Option<Vec<NetConfig>>, descriptors: Vec<i32>) -> (r: Result<
        (),
        String,
    >)
        ensures
            if old(self).descriptors is Some {
                fails_with(r, "CreateVm descriptors are already pending VmBoot"@) && *final(self)
                    == *old(self) && *final(nets) == *old(nets)
            } else {
                &&& crate::target::passes_unless(
                    r,
                    install_fault(machine_fds(*old(nets)), descriptors@.len()),
                )
                &&& machine_fds(*final(nets)) == installed(machine_fds(*old(nets)), descriptors@)
                &&& match (*old(nets), *final(nets)) {
                    (Some(before), Some(after)) => all_same_but_fds(after@, before@),
                    (None, None) => true,
                    _ => false,
                }
                &&& r is Ok ==> final(self).descriptors == Some(descriptors)
                &&& r is Err ==> final(self).descriptors is None
            },
    {
        if self.descriptors.is_some() {
            return Err("CreateVm descriptors are already pending VmBoot".to_owned());
        }
        if let Err(message) = install_vm_fds(nets, &descriptors) {
            return Err(message);
        }
        self.descriptors = Some(descriptors);
        Ok(())
    }

    /// Lets the descriptors go: the machine is not created, or deleted.
    pub fn abort(&mut self)
        ensures
            final(self).descriptors is None,
    {
        self.descriptors = None;
    }

    /// Lets the descriptors go: the machine has booted.
    pub fn complete_boot(&mut self)
        ensures
            final(self).descriptors is None,
    {
        self.descriptors = None;
    }
}

proof fn lemma_places_are_good(n: nat, from: int)
    requires
        n <= i32::MAX,
        0 <= from <= n,
    ensures
        first_bad_slot(places(n), n, from) == n,
    decreases n - from,
{
    if from < n {
        let slots = places(n);
        assert(slots[from] == from);
        assert(!slots.take(from).contains(slots[from])) by {
            if slots.take(from).contains(slots[from]) {
                let k = choose|k: int| 0 <= k < from && slots.take(from)[k] == slots[from];
                assert(slots[k] == k);
            }
        }
        lemma_places_are_good(n, from + 1);
    }
}

/// Descriptors that were taken out and received again in their order are all
/// put back: the places that extraction leaves accept exactly as many
/// descriptors, each in its own place.
pub proof fn law_extracted_descriptors_are_put_back(descriptors: Seq<i32>)
    requires
        descriptors.len() <= i32::MAX,
    ensures
        install_fault(places(descriptors.len()), descriptors.len()) is None,
        installed(places(descriptors.len()), descriptors) == descriptors,
{
    let n = descriptors.len();
    lemma_places_are_good(n, 0);
    assert(filled(places(n), descriptors, n as int) =~= descriptors) by {
        assert forall|i: int| 0 <= i < n implies filled(places(n), descriptors, n as int)[i]
            == descriptors[i] by {
            assert(places(n)[i] == i);
        }
    }
}

proof fn lemma_good_slot(slots: Seq<i32>, received: nat, from: int, i: int)
    requires
        0 <= from <= i < slots.len(),
        first_bad_slot(slots, received, from) == slots.len(),
    ensures
        slot_fault(slots, i, received) is None,
    decreases i - from,
{
    if from < i {
        lemma_good_slot(slots, received, from + 1, i);
    }
}

/// Where an installation succeeds, no two places get the same received
/// descriptor.
pub proof fn law_installed_places_are_distinct(slots: Seq<i32>, received: nat, i: int, j: int)
    requires
        install_fault(slots, received) is None,
        0 <= i < j < slots.len(),
    ensures
        0 <= slots[i] < received,
        0 <= slots[j] < received,
        slots[i] != slots[j],
{
    lemma_bad_slot_range(slots, received, 0);
    lemma_good_slot(slots, received, 0, i);
    lemma_good_slot(slots, received, 0, j);
    assert(slots.take(j)[i] == slots[i]);
}

proof fn lemma_bad_slot_range(slots: Seq<i32>, received: nat, from: int)
    requires
        0 <= from <= slots.len(),
    ensures
        from <= first_bad_slot(slots, received, from) <= slots.len(),
        first_bad_slot(slots, received, from) < slots.len() ==> slot_fault(
            slots,
            first_bad_slot(slots, received, from),
            received,
        ) is Some,
    decreases slots.len() - from,
{
    if from < slots.len() && slot_fault(slots, from, received) is None {
        lemma_bad_slot_range(slots, received, from + 1);
    }
}

/// Each place gets the descriptor that it names: where places and descriptors
/// fit, the one at place `k` stands where `k` stood.
pub proof fn law_places_get_their_descriptors(slots: Seq<i32>, descriptors: Seq<i32>, i: int)
    requires
        0 <= i < slots.len(),
    ensures
        installed(slots, descriptors).len() == slots.len(),
        install_fault(slots, descriptors.len()) is None ==> 0 <= slots[i] < descriptors.len()
            && installed(slots, descriptors)[i] == descriptors[slots[i] as int],
        slots.len() != descriptors.len() ==> install_fault(slots, descriptors.len()) is Some
            && installed(slots, descriptors) == slots,
{
    if install_fault(slots, descriptors.len()) is None {
        lemma_bad_slot_range(slots, descriptors.len(), 0);
        lemma_good_slot(slots, descriptors.len(), 0, i);
    }
}

/// A place that is negative, too large or named twice is refused.
pub proof fn law_bad_places_are_refused(slots: Seq<i32>, received: nat, i: int, j: int)
    requires
        0 <= i < slots.len(),
        slots[i] < 0 || slots[i] >= received || (0 <= j < i && slots[j] == slots[i]),
    ensures
        install_fault(slots, received) is Some,
{
    if slots.len() == received && first_bad_slot(slots, received, 0) >= slots.len() {
        lemma_bad_slot_range(slots, received, 0);
        lemma_good_slot(slots, received, 0, i);
        if 0 <= j < i && slots[j] == slots[i] {
            assert(slots.take(i)[j] == slots[i]);
            assert(slots.take(i).contains(slots[i]));
        }
    } else if slots.len() == received {
        lemma_bad_slot_range(slots, received, 0);
    }
}

/// The descriptors of a machine are those of its interfaces, one interface
/// after the other.
pub proof fn law_descriptors_follow_the_interfaces(nets: Seq<NetConfig>, net: NetConfig)
    ensures
        flat_fds(Seq::empty()).len() == 0,
        net.fds is None ==> flat_fds(nets.push(net)) == flat_fds(nets),
        net.fds matches Some(fds) ==> flat_fds(nets.push(net)) == flat_fds(nets) + fds@,
        machine_fds(None).len() == 0,
{
    assert(nets.push(net).drop_last() =~= nets);
}

/// An interface that differs in its descriptors alone has as many of them, and
/// keeps its name, its tap, its address, its size and its limits.
pub proof fn law_only_descriptors_are_replaced(a: NetConfig, b: NetConfig)
    requires
        same_but_fds(a, b),
    ensures
        a.id == b.id,
        a.tap == b.tap,
        a.mac == b.mac,
        a.mtu == b.mtu,
        a.rate_limiter_config == b.rate_limiter_config,
        (a.fds is Some) == (b.fds is Some),
        a.fds is Some ==> a.fds->0@.len() == b.fds->0@.len(),
{
}

/// What is handed over in a descriptor's stead is its place.
pub proof fn law_places_count_from_zero(n: nat, i: int)
    requires
        0 <= i < n,
        n <= i32::MAX,
    ensures
        places(n).len() == n,
        places(n)[i] == i,
{
}

} // verus!
