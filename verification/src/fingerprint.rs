//! The fingerprint of a Create request: two requests that ask for the same
//! sandbox have the same one, in whatever order their annotations come.
use vstd::prelude::*;
use vstd::relations::{sorted_by, total_ordering};
use vstd::seq_lib::lemma_sorted_unique;
use vstd::utf8::{decode_utf8, encode_utf8, encode_utf8_decode_utf8};

use crate::digest::{
    be_bytes, be_bytes_of, encodable, law_prefixed_parts_do_not_collide, lemma_be_bytes_injective,
    lemma_prefixed_all_push, prefixed_all, push_prefixed, sha256, sha256_digest,
};
use crate::text::views;

verus! {

/// A mount of a root file system.
#[derive(Debug, PartialEq, Eq)]
pub struct Mount {
    pub kind: String,
    pub source: String,
    pub target: String,
    pub options: Vec<String>,
}

/// The contents of a [`Mount`].
pub struct MountView {
    pub kind: Seq<char>,
    pub source: Seq<char>,
    pub target: Seq<char>,
    pub options: Seq<Seq<char>>,
}

impl View for Mount {
    type V = MountView;

    open spec fn view(&self) -> MountView {
        MountView {
            kind: self.kind@,
            source: self.source@,
            target: self.target@,
            options: views(self.options@),
        }
    }
}

/// What a sandbox is to be created from. No annotation occurs twice; their
/// order means nothing.
#[derive(Debug, PartialEq, Eq)]
pub struct CreateSandboxRequest {
    pub sandbox_id: String,
    pub bundle_path: String,
    pub netns_path: String,
    pub rootfs: Vec<Mount>,
    pub annotations: Vec<(String, String)>,
}

/// The contents of a [`CreateSandboxRequest`].
pub struct CreateSandboxRequestView {
    pub sandbox_id: Seq<char>,
    pub bundle_path: Seq<char>,
    pub netns_path: Seq<char>,
    pub rootfs: Seq<MountView>,
    pub annotations: Seq<(Seq<char>, Seq<char>)>,
}

impl View for CreateSandboxRequest {
    type V = CreateSandboxRequestView;

    open spec fn view(&self) -> CreateSandboxRequestView {
        CreateSandboxRequestView {
            sandbox_id: self.sandbox_id@,
            bundle_path: self.bundle_path@,
            netns_path: self.netns_path@,
            rootfs: Seq::new(self.rootfs@.len(), |i: int| self.rootfs@[i]@),
            annotations: Seq::new(
                self.annotations@.len(),
                |i: int| (self.annotations@[i].0@, self.annotations@[i].1@),
            ),
        }
    }
}

/// The order of byte strings: as that of words in a dictionary.
pub open spec fn lex_at_most(a: Seq<u8>, b: Seq<u8>) -> bool
    decreases a.len(),
{
    if a.len() == 0 {
        true
    } else if b.len() == 0 {
        false
    } else if a[0] != b[0] {
        a[0] < b[0]
    } else {
        lex_at_most(a.skip(1), b.skip(1))
    }
}

/// The order of annotations: by key, and by value where the keys are one.
pub open spec fn entry_at_most(a: (Seq<u8>, Seq<u8>), b: (Seq<u8>, Seq<u8>)) -> bool {
    if a.0 == b.0 {
        lex_at_most(a.1, b.1)
    } else {
        lex_at_most(a.0, b.0)
    }
}

/// The order of annotations as a relation.
pub open spec fn entry_order() -> spec_fn((Seq<u8>, Seq<u8>), (Seq<u8>, Seq<u8>)) -> bool {
    |a: (Seq<u8>, Seq<u8>), b: (Seq<u8>, Seq<u8>)| entry_at_most(a, b)
}

proof fn lemma_lex_reflexive(a: Seq<u8>)
    ensures
        lex_at_most(a, a),
    decreases a.len(),
{
    if a.len() > 0 {
        lemma_lex_reflexive(a.skip(1));
    }
}

proof fn lemma_lex_antisymmetric(a: Seq<u8>, b: Seq<u8>)
    requires
        lex_at_most(a, b),
        lex_at_most(b, a),
    ensures
        a == b,
    decreases a.len(),
{
    if a.len() > 0 && b.len() > 0 {
        lemma_lex_antisymmetric(a.skip(1), b.skip(1));
        assert(a =~= seq![a[0]] + a.skip(1));
        assert(b =~= seq![b[0]] + b.skip(1));
    } else {
        assert(a =~= b);
    }
}

proof fn lemma_lex_transitive(a: Seq<u8>, b: Seq<u8>, c: Seq<u8>)
    requires
        lex_at_most(a, b),
        lex_at_most(b, c),
    ensures
        lex_at_most(a, c),
    decreases a.len(),
{
    if a.len() > 0 && b.len() > 0 && c.len() > 0 && a[0] == b[0] && b[0] == c[0] {
        lemma_lex_transitive(a.skip(1), b.skip(1), c.skip(1));
    }
}

proof fn lemma_lex_total(a: Seq<u8>, b: Seq<u8>)
    ensures
        lex_at_most(a, b) || lex_at_most(b, a),
    decreases a.len(),
{
    if a.len() > 0 && b.len() > 0 && a[0] == b[0] {
        lemma_lex_total(a.skip(1), b.skip(1));
    }
}

proof fn lemma_entry_order_is_total()
    ensures
        total_ordering(entry_order()),
{
    let order = entry_order();
    assert forall|a: (Seq<u8>, Seq<u8>)| #[trigger] order(a, a) by {
        lemma_lex_reflexive(a.1);
    }
    assert forall|a: (Seq<u8>, Seq<u8>), b: (Seq<u8>, Seq<u8>)| #[trigger]
        order(a, b) && #[trigger] order(b, a) implies a == b by {
        if a.0 != b.0 {
            lemma_lex_antisymmetric(a.0, b.0);
        }
        lemma_lex_antisymmetric(a.1, b.1);
    }
    assert forall|a: (Seq<u8>, Seq<u8>), b: (Seq<u8>, Seq<u8>), c: (Seq<u8>, Seq<u8>)| #[trigger]
        order(a, b) && #[trigger] order(b, c) implies order(a, c) by {
        if a.0 == b.0 && b.0 == c.0 {
            lemma_lex_transitive(a.1, b.1, c.1);
        } else if a.0 == b.0 || b.0 == c.0 {
        } else {
            lemma_lex_transitive(a.0, b.0, c.0);
            if a.0 == c.0 {
                lemma_lex_antisymmetric(a.0, b.0);
            }
        }
    }
    assert forall|a: (Seq<u8>, Seq<u8>), b: (Seq<u8>, Seq<u8>)| #[trigger]
        order(a, b) || #[trigger] order(b, a) by {
        lemma_lex_total(a.0, b.0);
        lemma_lex_total(a.1, b.1);
    }
}

/// Whether a byte string comes no later than another.
fn comes_first(a: &[u8], b: &[u8]) -> (r: bool)
    ensures
        r == lex_at_most(a@, b@),
{
    let mut i: usize = 0;
    assert(a@.skip(0) =~= a@);
    assert(b@.skip(0) =~= b@);
    while i < a.len() && i < b.len() && a[i] == b[i]
        invariant
            i <= a.len(),
            i <= b.len(),
            lex_at_most(a@, b@) == lex_at_most(a@.skip(i as int), b@.skip(i as int)),
        decreases a.len() - i,
    {
        assert(a@.skip(i as int).skip(1) =~= a@.skip(i + 1));
        assert(b@.skip(i as int).skip(1) =~= b@.skip(i + 1));
        i = i + 1;
    }
    if i >= a.len() {
        return true;
    }
    if i >= b.len() {
        return false;
    }
    a[i] < b[i]
}

/// An annotation as bytes.
pub open spec fn entry_bytes(entry: (Seq<char>, Seq<char>)) -> (Seq<u8>, Seq<u8>) {
    (encode_utf8(entry.0), encode_utf8(entry.1))
}

/// The annotations as bytes.
pub open spec fn all_entry_bytes(annotations: Seq<(Seq<char>, Seq<char>)>) -> Seq<
    (Seq<u8>, Seq<u8>),
> {
    Seq::new(annotations.len(), |i: int| entry_bytes(annotations[i]))
}

/// The annotations as bytes in their order.
pub open spec fn sorted_entries(annotations: Seq<(Seq<char>, Seq<char>)>) -> Seq<
    (Seq<u8>, Seq<u8>),
> {
    all_entry_bytes(annotations).sort_by(entry_order())
}

spec fn order_bytes(annotations: Seq<(String, String)>, order: Seq<usize>) -> Seq<
    (Seq<u8>, Seq<u8>),
> {
    Seq::new(
        order.len(),
        |i: int| (annotations[order[i] as int].0@, annotations[order[i] as int].1@),
    ).map_values(|e: (Seq<char>, Seq<char>)| entry_bytes(e))
}

spec fn in_range(order: Seq<usize>, length: nat) -> bool {
    forall|i: int| 0 <= i < order.len() ==> (#[trigger] order[i]) < length
}

fn entry_comes_first(a: &(String, String), b: &(String, String)) -> (r: bool)
    ensures
        r == entry_at_most(entry_bytes((a.0@, a.1@)), entry_bytes((b.0@, b.1@))),
{
    let ka = a.0.as_str().as_bytes();
    let kb = b.0.as_str().as_bytes();
    let first = comes_first(ka, kb);
    let last = comes_first(kb, ka);
    proof {
        if lex_at_most(ka@, kb@) && lex_at_most(kb@, ka@) {
            lemma_lex_antisymmetric(ka@, kb@);
        }
        lemma_lex_reflexive(ka@);
        lemma_lex_total(ka@, kb@);
    }
    if first && last {
        comes_first(a.1.as_str().as_bytes(), b.1.as_str().as_bytes())
    } else {
        first
    }
}

proof fn lemma_insert_to_multiset<A>(s: Seq<A>, at: int, a: A)
    requires
        0 <= at <= s.len(),
    ensures
        s.insert(at, a).to_multiset() =~= s.to_multiset().insert(a),
{
    broadcast use vstd::seq_lib::group_to_multiset_ensures;

    let t = s.insert(at, a);
    assert(t.remove(at) =~= s);
    assert(t[at] == a);
    assert(t.contains(a));
    assert(t.to_multiset().remove(a).insert(a) =~= t.to_multiset());
}

/// The order in which the annotations are hashed.
fn annotation_order(annotations: &Vec<(String, String)>) -> (order: Vec<usize>)
    ensures
        order@.len() == annotations@.len(),
        in_range(order@, annotations@.len()),
        order_bytes(annotations@, order@) == sorted_entries(
            Seq::new(annotations@.len(), |i: int| (annotations@[i].0@, annotations@[i].1@)),
        ),
{
    let ghost entries = all_entry_bytes(
        Seq::new(annotations@.len(), |i: int| (annotations@[i].0@, annotations@[i].1@)),
    );
    let mut order: Vec<usize> = Vec::new();
    let mut i: usize = 0;
    assert(order_bytes(annotations@, order@) =~= entries.take(0));
    while i < annotations.len()
        invariant
            i <= annotations@.len(),
            entries.len() == annotations@.len(),
            forall|k: int|
                0 <= k < entries.len() ==> #[trigger] entries[k] == entry_bytes(
                    (annotations@[k].0@, annotations@[k].1@),
                ),
            order@.len() == i,
            in_range(order@, annotations@.len()),
            sorted_by(order_bytes(annotations@, order@), entry_order()),
            order_bytes(annotations@, order@).to_multiset() == entries.take(i as int).to_multiset(),
        decreases annotations.len() - i,
    {
        let ghost before = order_bytes(annotations@, order@);
        let ghost entry = entries[i as int];
        let mut at: usize = 0;
        while at < order.len() && entry_comes_first(&annotations[order[at]], &annotations[i])
            invariant
                i < annotations@.len(),
                at <= order@.len(),
                in_range(order@, annotations@.len()),
                before == order_bytes(annotations@, order@),
                entry == entry_bytes((annotations@[i as int].0@, annotations@[i as int].1@)),
                forall|k: int| 0 <= k < at ==> entry_at_most(#[trigger] before[k], entry),
            ensures
                at < order@.len() ==> !entry_at_most(before[at as int], entry),
            decreases order.len() - at,
        {
            at = at + 1;
        }
        order.insert(at, i);
        proof {
            lemma_entry_order_is_total();
            let after = order_bytes(annotations@, order@);
            assert(after =~= before.insert(at as int, entry));
            lemma_insert_to_multiset(before, at as int, entry);
            broadcast use vstd::seq_lib::group_to_multiset_ensures;

            assert(entries.take(i + 1) =~= entries.take(i as int).push(entry));
            let leq = entry_order();
            assert forall|a: int, b: int| 0 <= a < b < after.len() implies #[trigger] leq(
                after[a],
                after[b],
            ) by {
                if at < before.len() {
                    assert(leq(entry, before[at as int]) || leq(before[at as int], entry));
                    assert(leq(entry, before[at as int]));
                }
                if a < at && b == at {
                } else if a == at {
                    assert(after[b] == before[b - 1]);
                    if b - 1 > at {
                        assert(leq(before[at as int], before[b - 1]));
                        assert(leq(entry, before[at as int]));
                    }
                } else if b < at {
                    assert(leq(before[a], before[b]));
                } else if a < at {
                    assert(leq(before[a], before[b - 1]));
                } else {
                    assert(leq(before[a - 1], before[b - 1]));
                }
            }
        }
        i = i + 1;
    }
    proof {
        lemma_entry_order_is_total();
        assert(entries.take(i as int) =~= entries);
        entries.lemma_sort_by_ensures(entry_order());
        lemma_sorted_unique(
            order_bytes(annotations@, order@),
            entries.sort_by(entry_order()),
            entry_order(),
        );
    }
    order
}

/// The parts of a mount's options.
pub open spec fn option_parts(options: Seq<Seq<char>>) -> Seq<Seq<u8>> {
    Seq::new(
        2 * options.len(),
        |i: int|
            if i % 2 == 0 {
                encode_utf8("option"@)
            } else {
                encode_utf8(options[i / 2])
            },
    )
}

/// The parts of a mount that stand before its options.
pub open spec fn mount_head(mount: MountView) -> Seq<Seq<u8>> {
    seq![
        encode_utf8("mount"@),
        encode_utf8("type"@),
        encode_utf8(mount.kind),
        encode_utf8("source"@),
        encode_utf8(mount.source),
        encode_utf8("target"@),
        encode_utf8(mount.target),
        encode_utf8("options"@),
        be_bytes(mount.options.len() as u64),
    ]
}

/// The parts of a mount.
pub open spec fn mount_parts(mount: MountView) -> Seq<Seq<u8>> {
    mount_head(mount) + option_parts(mount.options)
}

/// The parts of all mounts.
pub open spec fn rootfs_parts(mounts: Seq<MountView>) -> Seq<Seq<u8>>
    decreases mounts.len(),
{
    if mounts.len() == 0 {
        Seq::empty()
    } else {
        mount_parts(mounts[0]) + rootfs_parts(mounts.skip(1))
    }
}

/// The parts of annotations.
pub open spec fn entry_parts(entries: Seq<(Seq<u8>, Seq<u8>)>) -> Seq<Seq<u8>> {
    Seq::new(
        3 * entries.len(),
        |i: int|
            if i % 3 == 0 {
                encode_utf8("entry"@)
            } else if i % 3 == 1 {
                entries[i / 3].0
            } else {
                entries[i / 3].1
            },
    )
}

/// The parts of a request that stand before its mounts.
pub open spec fn request_head(request: CreateSandboxRequestView, cri_fingerprint: Seq<char>) -> Seq<
    Seq<u8>,
> {
    seq![
        encode_utf8("create-sandbox-request-v2"@),
        encode_utf8("sandbox-id"@),
        encode_utf8(request.sandbox_id),
        encode_utf8("bundle-path"@),
        encode_utf8(request.bundle_path),
        encode_utf8("netns-path"@),
        encode_utf8(request.netns_path),
        encode_utf8("cri-semantic-fingerprint"@),
        encode_utf8(cri_fingerprint),
        encode_utf8("rootfs"@),
        be_bytes(request.rootfs.len() as u64),
    ]
}

/// The parts between the mounts and the annotations.
pub open spec fn annotations_head(request: CreateSandboxRequestView) -> Seq<Seq<u8>> {
    seq![encode_utf8("annotations"@), be_bytes(request.annotations.len() as u64)]
}

/// What is hashed of a request.
pub open spec fn create_parts(request: CreateSandboxRequestView, cri_fingerprint: Seq<char>) -> Seq<
    Seq<u8>,
> {
    request_head(request, cri_fingerprint) + (rootfs_parts(request.rootfs) + (annotations_head(
        request,
    ) + entry_parts(sorted_entries(request.annotations))))
}

fn push_part(buffer: &mut Vec<u8>, part: &[u8], Ghost(parts): Ghost<Seq<Seq<u8>>>)
    requires
        old(buffer)@ == prefixed_all(parts),
    ensures
        final(buffer)@ == prefixed_all(parts.push(part@)),
{
    push_prefixed(buffer, part);
    proof {
        lemma_prefixed_all_push(parts, part@);
    }
}

fn push_text(buffer: &mut Vec<u8>, text: &str, Ghost(parts): Ghost<Seq<Seq<u8>>>)
    requires
        old(buffer)@ == prefixed_all(parts),
    ensures
        final(buffer)@ == prefixed_all(parts.push(encode_utf8(text@))),
{
    push_part(buffer, text.as_bytes(), Ghost(parts));
}

fn push_field(buffer: &mut Vec<u8>, label: &str, value: &str, Ghost(parts): Ghost<Seq<Seq<u8>>>)
    requires
        old(buffer)@ == prefixed_all(parts),
    ensures
        final(buffer)@ == prefixed_all(
            parts.push(encode_utf8(label@)).push(encode_utf8(value@)),
        ),
{
    push_text(buffer, label, Ghost(parts));
    push_text(buffer, value, Ghost(parts.push(encode_utf8(label@))));
}

fn push_count(buffer: &mut Vec<u8>, label: &str, count: usize, Ghost(parts): Ghost<Seq<Seq<u8>>>)
    requires
        old(buffer)@ == prefixed_all(parts),
    ensures
        final(buffer)@ == prefixed_all(
            parts.push(encode_utf8(label@)).push(be_bytes(count as u64)),
        ),
{
    push_text(buffer, label, Ghost(parts));
    let bytes = be_bytes_of(count as u64);
    push_part(buffer, bytes.as_slice(), Ghost(parts.push(encode_utf8(label@))));
}

fn push_mount(buffer: &mut Vec<u8>, mount: &Mount, Ghost(base): Ghost<Seq<Seq<u8>>>)
    requires
        old(buffer)@ == prefixed_all(base),
    ensures
        final(buffer)@ == prefixed_all(base + mount_parts(mount@)),
{
    let ghost head = mount_head(mount@);
    push_text(buffer, "mount", Ghost(base));
    assert(base.push(head[0]) =~= base + head.take(1));
    push_field(buffer, "type", mount.kind.as_str(), Ghost(base + head.take(1)));
    assert((base + head.take(1)).push(head[1]).push(head[2]) =~= base + head.take(3));
    push_field(buffer, "source", mount.source.as_str(), Ghost(base + head.take(3)));
    assert((base + head.take(3)).push(head[3]).push(head[4]) =~= base + head.take(5));
    push_field(buffer, "target", mount.target.as_str(), Ghost(base + head.take(5)));
    assert((base + head.take(5)).push(head[5]).push(head[6]) =~= base + head.take(7));
    push_count(buffer, "options", mount.options.len(), Ghost(base + head.take(7)));
    assert((base + head.take(7)).push(head[7]).push(head[8]) =~= base + head);
    let ghost options = views(mount.options@);
    assert(base + head =~= base + head + option_parts(options.take(0)));
    let mut i: usize = 0;
    while i < mount.options.len()
        invariant
            i <= mount.options@.len(),
            options == views(mount.options@),
            buffer@ == prefixed_all(base + head + option_parts(options.take(i as int))),
        decreases mount.options.len() - i,
    {
        let ghost parts = base + head + option_parts(options.take(i as int));
        push_field(buffer, "option", mount.options[i].as_str(), Ghost(parts));
        i = i + 1;
        assert(parts.push(encode_utf8("option"@)).push(encode_utf8(options[i - 1])) =~= base + head
            + option_parts(options.take(i as int)));
    }
    assert(options.take(i as int) =~= options);
    assert(base + head + option_parts(options) =~= base + mount_parts(mount@));
}

proof fn lemma_rootfs_parts_push(mounts: Seq<MountView>, mount: MountView)
    ensures
        rootfs_parts(mounts.push(mount)) == rootfs_parts(mounts) + mount_parts(mount),
    decreases mounts.len(),
{
    if mounts.len() == 0 {
        assert(mounts.push(mount).skip(1) =~= Seq::<MountView>::empty());
        assert(rootfs_parts(mounts.push(mount).skip(1)) =~= Seq::<Seq<u8>>::empty());
        assert(rootfs_parts(mounts.push(mount)) =~= mount_parts(mount));
        assert(rootfs_parts(mounts) + mount_parts(mount) =~= mount_parts(mount));
    } else {
        assert(mounts.push(mount).skip(1) =~= mounts.skip(1).push(mount));
        lemma_rootfs_parts_push(mounts.skip(1), mount);
        assert(rootfs_parts(mounts.push(mount)) =~= rootfs_parts(mounts) + mount_parts(mount));
    }
}

/// The fingerprint of a request.
pub fn create_request_fingerprint(request: &CreateSandboxRequest, cri_fingerprint: &str) -> (digest:
    Vec<u8>)
    ensures
        digest@ == fingerprint(request@, cri_fingerprint@),
        digest@.len() == 32,
{
    let ghost head = request_head(request@, cri_fingerprint@);
    let mut buffer: Vec<u8> = Vec::new();
    let ghost none = Seq::<Seq<u8>>::empty();
    assert(buffer@ =~= prefixed_all(none));
    push_text(&mut buffer, "create-sandbox-request-v2", Ghost(none));
    assert(none.push(head[0]) =~= head.take(1));
    push_field(&mut buffer, "sandbox-id", request.sandbox_id.as_str(), Ghost(head.take(1)));
    assert(head.take(1).push(head[1]).push(head[2]) =~= head.take(3));
    push_field(&mut buffer, "bundle-path", request.bundle_path.as_str(), Ghost(head.take(3)));
    assert(head.take(3).push(head[3]).push(head[4]) =~= head.take(5));
    push_field(&mut buffer, "netns-path", request.netns_path.as_str(), Ghost(head.take(5)));
    assert(head.take(5).push(head[5]).push(head[6]) =~= head.take(7));
    push_field(&mut buffer, "cri-semantic-fingerprint", cri_fingerprint, Ghost(head.take(7)));
    assert(head.take(7).push(head[7]).push(head[8]) =~= head.take(9));
    push_count(&mut buffer, "rootfs", request.rootfs.len(), Ghost(head.take(9)));
    assert(head.take(9).push(head[9]).push(head[10]) =~= head);
    let ghost mounts = request@.rootfs;
    assert(head =~= head + rootfs_parts(mounts.take(0)));
    let mut i: usize = 0;
    while i < request.rootfs.len()
        invariant
            i <= request.rootfs@.len(),
            mounts == request@.rootfs,
            buffer@ == prefixed_all(head + rootfs_parts(mounts.take(i as int))),
        decreases request.rootfs.len() - i,
    {
        let ghost parts = head + rootfs_parts(mounts.take(i as int));
        push_mount(&mut buffer, &request.rootfs[i], Ghost(parts));
        proof {
            lemma_rootfs_parts_push(mounts.take(i as int), mounts[i as int]);
            assert(mounts.take(i + 1) =~= mounts.take(i as int).push(mounts[i as int]));
            assert(parts + mount_parts(mounts[i as int]) =~= head + rootfs_parts(
                mounts.take(i + 1),
            ));
        }
        i = i + 1;
    }
    assert(mounts.take(i as int) =~= mounts);
    let ghost base = head + rootfs_parts(mounts);
    push_count(&mut buffer, "annotations", request.annotations.len(), Ghost(base));
    let ghost base = base + annotations_head(request@);
    assert((head + rootfs_parts(mounts)).push(annotations_head(request@)[0]).push(
        annotations_head(request@)[1],
    ) =~= base);
    let order = annotation_order(&request.annotations);
    let ghost entries = order_bytes(request.annotations@, order@);
    assert(entries == sorted_entries(request@.annotations));
    assert(base =~= base + entry_parts(entries.take(0)));
    let mut k: usize = 0;
    while k < order.len()
        invariant
            k <= order@.len(),
            order@.len() == entries.len(),
            in_range(order@, request.annotations@.len()),
            entries == order_bytes(request.annotations@, order@),
            buffer@ == prefixed_all(base + entry_parts(entries.take(k as int))),
        decreases order.len() - k,
    {
        let ghost parts = base + entry_parts(entries.take(k as int));
        let entry = &request.annotations[order[k]];
        push_field(&mut buffer, "entry", entry.0.as_str(), Ghost(parts));
        push_text(
            &mut buffer,
            entry.1.as_str(),
            Ghost(parts.push(encode_utf8("entry"@)).push(encode_utf8(entry.0@))),
        );
        k = k + 1;
        assert(entries[k - 1] == entry_bytes((entry.0@, entry.1@)));
        assert(parts.push(encode_utf8("entry"@)).push(encode_utf8(entry.0@)).push(
            encode_utf8(entry.1@),
        ) =~= base + entry_parts(entries.take(k as int)));
    }
    assert(entries.take(k as int) =~= entries);
    assert(base + entry_parts(entries) =~= create_parts(request@, cri_fingerprint@));
    sha256_digest(buffer.as_slice())
}

/// The order in which annotations come does not change the fingerprint.
pub proof fn law_annotation_order_is_ignored(
    a: CreateSandboxRequestView,
    b: CreateSandboxRequestView,
    cri_fingerprint: Seq<char>,
)
    requires
        a.annotations.to_multiset() == b.annotations.to_multiset(),
        b == (CreateSandboxRequestView { annotations: b.annotations, ..a }),
    ensures
        create_parts(a, cri_fingerprint) == create_parts(b, cri_fingerprint),
{
    broadcast use vstd::seq_lib::group_to_multiset_ensures;

    lemma_entry_order_is_total();
    let x = all_entry_bytes(a.annotations);
    let y = all_entry_bytes(b.annotations);
    lemma_bytes_multiset(a.annotations, b.annotations);
    x.lemma_sort_by_ensures(entry_order());
    y.lemma_sort_by_ensures(entry_order());
    lemma_sorted_unique(x.sort_by(entry_order()), y.sort_by(entry_order()), entry_order());
    assert(a.annotations.len() == a.annotations.to_multiset().len());
    assert(b.annotations.len() == b.annotations.to_multiset().len());
}

proof fn lemma_mapped_multiset<A, B>(a: Seq<A>, b: Seq<A>, f: spec_fn(A) -> B)
    requires
        a.to_multiset() == b.to_multiset(),
    ensures
        a.map_values(f).to_multiset() == b.map_values(f).to_multiset(),
    decreases a.len(),
{
    broadcast use vstd::seq_lib::group_to_multiset_ensures;

    assert(a.len() == a.to_multiset().len());
    assert(b.len() == b.to_multiset().len());
    if a.len() == 0 {
        assert(a.map_values(f) =~= b.map_values(f));
    } else {
        let e = a.last();
        assert(a.contains(e));
        assert(b.to_multiset().count(e) > 0);
        assert(b.contains(e));
        let at = choose|at: int| 0 <= at < b.len() && b[at] == e;
        let shorter = a.drop_last();
        assert(shorter.push(e) =~= a);
        assert(shorter.to_multiset() =~= a.to_multiset().remove(e));
        assert(b.remove(at).to_multiset() =~= b.to_multiset().remove(e));
        lemma_mapped_multiset(shorter, b.remove(at), f);
        assert(a.map_values(f) =~= shorter.map_values(f).push(f(e)));
        let rest = b.remove(at).map_values(f);
        assert(b.map_values(f) =~= rest.insert(at, f(e)));
        lemma_insert_to_multiset(rest, at, f(e));
    }
}

/// The annotations that these bytes are of.
spec fn entry_of(bytes: (Seq<u8>, Seq<u8>)) -> (Seq<char>, Seq<char>) {
    (decode_utf8(bytes.0), decode_utf8(bytes.1))
}

proof fn lemma_bytes_multiset(
    a: Seq<(Seq<char>, Seq<char>)>,
    b: Seq<(Seq<char>, Seq<char>)>,
)
    ensures
        (a.to_multiset() == b.to_multiset()) == (all_entry_bytes(a).to_multiset()
            == all_entry_bytes(b).to_multiset()),
{
    let bytes = |e: (Seq<char>, Seq<char>)| entry_bytes(e);
    let entry = |e: (Seq<u8>, Seq<u8>)| entry_of(e);
    assert(a.map_values(bytes) =~= all_entry_bytes(a));
    assert(b.map_values(bytes) =~= all_entry_bytes(b));
    assert forall|e: (Seq<char>, Seq<char>)| entry_of(#[trigger] entry_bytes(e)) == e by {
        encode_utf8_decode_utf8(e.0);
        encode_utf8_decode_utf8(e.1);
    }
    assert(all_entry_bytes(a).map_values(entry) =~= a);
    assert(all_entry_bytes(b).map_values(entry) =~= b);
    if a.to_multiset() == b.to_multiset() {
        lemma_mapped_multiset(a, b, bytes);
    }
    if all_entry_bytes(a).to_multiset() == all_entry_bytes(b).to_multiset() {
        lemma_mapped_multiset(all_entry_bytes(a), all_entry_bytes(b), entry);
    }
}

/// Every count of a request is written in full.
pub open spec fn countable(request: CreateSandboxRequestView) -> bool {
    &&& request.rootfs.len() <= u64::MAX
    &&& request.annotations.len() <= u64::MAX
    &&& forall|i: int|
        0 <= i < request.rootfs.len() ==> (#[trigger] request.rootfs[i]).options.len() <= u64::MAX
}

proof fn lemma_text_injective(a: Seq<char>, b: Seq<char>)
    requires
        encode_utf8(a) == encode_utf8(b),
    ensures
        a == b,
{
    encode_utf8_decode_utf8(a);
    encode_utf8_decode_utf8(b);
}

proof fn lemma_options_parse(
    a: Seq<Seq<char>>,
    b: Seq<Seq<char>>,
    rest_a: Seq<Seq<u8>>,
    rest_b: Seq<Seq<u8>>,
)
    requires
        a.len() == b.len(),
        option_parts(a) + rest_a == option_parts(b) + rest_b,
    ensures
        a == b,
        rest_a == rest_b,
{
    let x = option_parts(a) + rest_a;
    let y = option_parts(b) + rest_b;
    assert forall|i: int| 0 <= i < a.len() implies a[i] == b[i] by {
        assert(x[2 * i + 1] == encode_utf8(a[i]));
        assert(y[2 * i + 1] == encode_utf8(b[i]));
        lemma_text_injective(a[i], b[i]);
    }
    assert(a =~= b);
    assert(rest_a =~= x.skip(2 * a.len() as int));
    assert(rest_b =~= y.skip(2 * a.len() as int));
}

proof fn lemma_mount_parse(
    a: MountView,
    b: MountView,
    rest_a: Seq<Seq<u8>>,
    rest_b: Seq<Seq<u8>>,
)
    requires
        a.options.len() <= u64::MAX,
        b.options.len() <= u64::MAX,
        mount_parts(a) + rest_a == mount_parts(b) + rest_b,
    ensures
        a == b,
        rest_a == rest_b,
{
    let x = mount_parts(a) + rest_a;
    let y = mount_parts(b) + rest_b;
    assert(x[2] == encode_utf8(a.kind) && y[2] == encode_utf8(b.kind));
    lemma_text_injective(a.kind, b.kind);
    assert(x[4] == encode_utf8(a.source) && y[4] == encode_utf8(b.source));
    lemma_text_injective(a.source, b.source);
    assert(x[6] == encode_utf8(a.target) && y[6] == encode_utf8(b.target));
    lemma_text_injective(a.target, b.target);
    assert(x[8] == be_bytes(a.options.len() as u64) && y[8] == be_bytes(b.options.len() as u64));
    lemma_be_bytes_injective(a.options.len() as u64, b.options.len() as u64);
    assert(x.skip(9) =~= option_parts(a.options) + rest_a);
    assert(y.skip(9) =~= option_parts(b.options) + rest_b);
    lemma_options_parse(a.options, b.options, rest_a, rest_b);
}

proof fn lemma_concat<A>(a: Seq<A>, b: Seq<A>, c: Seq<A>)
    ensures
        (a + b) + c == a + (b + c),
{
    assert((a + b) + c =~= a + (b + c));
}

proof fn lemma_first_and_rest<A>(a: Seq<A>, b: Seq<A>)
    requires
        a.len() == b.len(),
        a.len() > 0,
        a[0] == b[0],
        a.skip(1) == b.skip(1),
    ensures
        a == b,
{
    assert(a =~= seq![a[0]] + a.skip(1));
    assert(b =~= seq![b[0]] + b.skip(1));
}

#[verifier::spinoff_prover]
proof fn lemma_rootfs_parse(
    a: Seq<MountView>,
    b: Seq<MountView>,
    rest_a: Seq<Seq<u8>>,
    rest_b: Seq<Seq<u8>>,
)
    requires
        a.len() == b.len(),
        forall|i: int| 0 <= i < a.len() ==> (#[trigger] a[i]).options.len() <= u64::MAX,
        forall|i: int| 0 <= i < b.len() ==> (#[trigger] b[i]).options.len() <= u64::MAX,
        rootfs_parts(a) + rest_a == rootfs_parts(b) + rest_b,
    ensures
        a == b,
        rest_a == rest_b,
    decreases a.len(),
{
    if a.len() == 0 {
        assert(rootfs_parts(a) + rest_a =~= rest_a);
        assert(rootfs_parts(b) + rest_b =~= rest_b);
        assert(a =~= b);
    } else {
        let more_a = rootfs_parts(a.skip(1)) + rest_a;
        let more_b = rootfs_parts(b.skip(1)) + rest_b;
        lemma_concat(mount_parts(a[0]), rootfs_parts(a.skip(1)), rest_a);
        lemma_concat(mount_parts(b[0]), rootfs_parts(b.skip(1)), rest_b);
        lemma_mount_parse(a[0], b[0], more_a, more_b);
        lemma_rootfs_parse(a.skip(1), b.skip(1), rest_a, rest_b);
        lemma_first_and_rest(a, b);
    }
}

/// What is hashed tells requests apart: only requests for the same sandbox, up
/// to the order of their annotations, hash the same bytes.
pub proof fn law_different_requests_hash_different_bytes(
    a: CreateSandboxRequestView,
    cri_a: Seq<char>,
    b: CreateSandboxRequestView,
    cri_b: Seq<char>,
)
    requires
        countable(a),
        countable(b),
        encodable(create_parts(a, cri_a)),
        encodable(create_parts(b, cri_b)),
        prefixed_all(create_parts(a, cri_a)) == prefixed_all(create_parts(b, cri_b)),
    ensures
        b == (CreateSandboxRequestView { annotations: b.annotations, ..a }),
        cri_a == cri_b,
        a.annotations.to_multiset() == b.annotations.to_multiset(),
{
    law_prefixed_parts_do_not_collide(create_parts(a, cri_a), create_parts(b, cri_b));
    let x = create_parts(a, cri_a);
    let y = create_parts(b, cri_b);
    assert(x[2] == encode_utf8(a.sandbox_id) && y[2] == encode_utf8(b.sandbox_id));
    lemma_text_injective(a.sandbox_id, b.sandbox_id);
    assert(x[4] == encode_utf8(a.bundle_path) && y[4] == encode_utf8(b.bundle_path));
    lemma_text_injective(a.bundle_path, b.bundle_path);
    assert(x[6] == encode_utf8(a.netns_path) && y[6] == encode_utf8(b.netns_path));
    lemma_text_injective(a.netns_path, b.netns_path);
    assert(x[8] == encode_utf8(cri_a) && y[8] == encode_utf8(cri_b));
    lemma_text_injective(cri_a, cri_b);
    assert(x[10] == be_bytes(a.rootfs.len() as u64) && y[10] == be_bytes(b.rootfs.len() as u64));
    lemma_be_bytes_injective(a.rootfs.len() as u64, b.rootfs.len() as u64);
    let entries_a = sorted_entries(a.annotations);
    let entries_b = sorted_entries(b.annotations);
    let rest_a = annotations_head(a) + entry_parts(entries_a);
    let rest_b = annotations_head(b) + entry_parts(entries_b);
    assert(x.skip(11) =~= rootfs_parts(a.rootfs) + rest_a);
    assert(y.skip(11) =~= rootfs_parts(b.rootfs) + rest_b);
    lemma_rootfs_parse(a.rootfs, b.rootfs, rest_a, rest_b);
    assert(rest_a.skip(2) =~= entry_parts(entries_a));
    assert(rest_b.skip(2) =~= entry_parts(entries_b));
    let p = entry_parts(entries_a);
    let q = entry_parts(entries_b);
    assert(entries_a.len() == entries_b.len());
    assert forall|i: int| 0 <= i < entries_a.len() implies entries_a[i] == entries_b[i] by {
        assert(p[3 * i + 1] == entries_a[i].0);
        assert(q[3 * i + 1] == entries_b[i].0);
        assert(p[3 * i + 2] == entries_a[i].1);
        assert(q[3 * i + 2] == entries_b[i].1);
    }
    assert(entries_a =~= entries_b);
    lemma_entry_order_is_total();
    all_entry_bytes(a.annotations).lemma_sort_by_ensures(entry_order());
    all_entry_bytes(b.annotations).lemma_sort_by_ensures(entry_order());
    lemma_bytes_multiset(a.annotations, b.annotations);
}

/// No key occurs twice.
pub open spec fn keys_distinct(annotations: Seq<(Seq<char>, Seq<char>)>) -> bool {
    forall|i: int, j: int|
        0 <= i < j < annotations.len() ==> (#[trigger] annotations[i]).0 != (
        #[trigger] annotations[j]).0
}

/// The annotations by their keys.
pub open spec fn annotation_map(annotations: Seq<(Seq<char>, Seq<char>)>) -> Map<
    Seq<char>,
    Seq<char>,
> {
    Map::new(
        |key: Seq<char>| exists|i: int| 0 <= i < annotations.len() && annotations[i].0 == key,
        |key: Seq<char>|
            annotations[choose|i: int| 0 <= i < annotations.len() && annotations[i].0 == key].1,
    )
}

proof fn lemma_map_holds(annotations: Seq<(Seq<char>, Seq<char>)>, i: int)
    requires
        keys_distinct(annotations),
        0 <= i < annotations.len(),
    ensures
        annotation_map(annotations).dom().contains(annotations[i].0),
        annotation_map(annotations)[annotations[i].0] == annotations[i].1,
{
    let key = annotations[i].0;
    let j = choose|j: int| 0 <= j < annotations.len() && annotations[j].0 == key;
    assert(j == i);
}

proof fn lemma_map_within(a: Seq<(Seq<char>, Seq<char>)>, b: Seq<(Seq<char>, Seq<char>)>, i: int)
    requires
        keys_distinct(a),
        keys_distinct(b),
        annotation_map(a) == annotation_map(b),
        0 <= i < a.len(),
    ensures
        b.contains(a[i]),
{
    lemma_map_holds(a, i);
    let j = choose|j: int| 0 <= j < b.len() && b[j].0 == a[i].0;
    lemma_map_holds(b, j);
    assert(b[j] == a[i]);
}

proof fn lemma_same_annotations(a: Seq<(Seq<char>, Seq<char>)>, b: Seq<(Seq<char>, Seq<char>)>)
    requires
        keys_distinct(a),
        keys_distinct(b),
    ensures
        (annotation_map(a) == annotation_map(b)) == (a.to_multiset() == b.to_multiset()),
{
    broadcast use vstd::seq_lib::group_to_multiset_ensures;

    if annotation_map(a) == annotation_map(b) {
        assert(a.no_duplicates());
        assert(b.no_duplicates());
        a.lemma_multiset_has_no_duplicates();
        b.lemma_multiset_has_no_duplicates();
        assert forall|e: (Seq<char>, Seq<char>)| a.contains(e) == b.contains(e) by {
            if a.contains(e) {
                lemma_map_within(a, b, choose|i: int| 0 <= i < a.len() && a[i] == e);
            }
            if b.contains(e) {
                lemma_map_within(b, a, choose|i: int| 0 <= i < b.len() && b[i] == e);
            }
        }
        assert forall|e: (Seq<char>, Seq<char>)| #[trigger]
            a.to_multiset().count(e) == b.to_multiset().count(e) by {
            assert(a.contains(e) == b.contains(e));
            assert(a.contains(e) == (a.to_multiset().count(e) > 0));
            assert(b.contains(e) == (b.to_multiset().count(e) > 0));
        }
        assert(a.to_multiset() =~= b.to_multiset());
    }
    if a.to_multiset() == b.to_multiset() {
        assert forall|e: (Seq<char>, Seq<char>)| a.contains(e) == b.contains(e) by {
            assert(a.contains(e) == (a.to_multiset().count(e) > 0));
            assert(b.contains(e) == (b.to_multiset().count(e) > 0));
        }
        lemma_map_follows(a, b);
        lemma_map_follows(b, a);
        assert(annotation_map(a) =~= annotation_map(b));
    }
}

proof fn lemma_map_follows(a: Seq<(Seq<char>, Seq<char>)>, b: Seq<(Seq<char>, Seq<char>)>)
    requires
        keys_distinct(a),
        keys_distinct(b),
        forall|e: (Seq<char>, Seq<char>)| a.contains(e) == b.contains(e),
    ensures
        forall|key: Seq<char>| #[trigger]
            annotation_map(a).dom().contains(key) ==> annotation_map(b).dom().contains(key)
                && annotation_map(b)[key] == annotation_map(a)[key],
{
    assert forall|key: Seq<char>| #[trigger]
        annotation_map(a).dom().contains(key) implies annotation_map(b).dom().contains(key)
        && annotation_map(b)[key] == annotation_map(a)[key] by {
        let i = choose|i: int| 0 <= i < a.len() && a[i].0 == key;
        lemma_map_holds(a, i);
        assert(a.contains(a[i]));
        assert(b.contains(a[i]));
        let j = choose|j: int| 0 <= j < b.len() && b[j] == a[i];
        lemma_map_holds(b, j);
    }
}

/// Whether two requests ask for the same sandbox: they agree in everything, and
/// in their annotations key by key.
pub open spec fn same_request(
    a: CreateSandboxRequestView,
    cri_a: Seq<char>,
    b: CreateSandboxRequestView,
    cri_b: Seq<char>,
) -> bool {
    &&& cri_a == cri_b
    &&& a.sandbox_id == b.sandbox_id
    &&& a.bundle_path == b.bundle_path
    &&& a.netns_path == b.netns_path
    &&& a.rootfs == b.rootfs
    &&& annotation_map(a.annotations) == annotation_map(b.annotations)
}

/// The fingerprint of a request, as [`create_request_fingerprint`] computes it.
pub open spec fn fingerprint(request: CreateSandboxRequestView, cri_fingerprint: Seq<char>) -> Seq<
    u8,
> {
    sha256(prefixed_all(create_parts(request, cri_fingerprint)))
}

/// As long as SHA-256 does not collide on them, two requests have one
/// fingerprint exactly when they ask for the same sandbox. Requests whose
/// lengths do not fit in 64 bits cannot be held and are left out.
pub proof fn law_fingerprints_tell_requests_apart(
    a: CreateSandboxRequestView,
    cri_a: Seq<char>,
    b: CreateSandboxRequestView,
    cri_b: Seq<char>,
)
    requires
        keys_distinct(a.annotations),
        keys_distinct(b.annotations),
        countable(a),
        countable(b),
        encodable(create_parts(a, cri_a)),
        encodable(create_parts(b, cri_b)),
        fingerprint(a, cri_a) == fingerprint(b, cri_b) ==> prefixed_all(create_parts(a, cri_a))
            == prefixed_all(create_parts(b, cri_b)),
    ensures
        fingerprint(a, cri_a) == fingerprint(b, cri_b) <==> same_request(a, cri_a, b, cri_b),
{
    lemma_same_annotations(a.annotations, b.annotations);
    if fingerprint(a, cri_a) == fingerprint(b, cri_b) {
        law_different_requests_hash_different_bytes(a, cri_a, b, cri_b);
    }
    if same_request(a, cri_a, b, cri_b) {
        law_annotation_order_is_ignored(a, b, cri_a);
    }
}

/// A request is written with its labels: its version first, then its name, its
/// bundle, its namespace and the fingerprint of what the runtime asked for,
/// each behind its label, then its mounts and, sorted, its annotations.
pub proof fn law_requests_are_written_with_labels(
    request: CreateSandboxRequestView,
    cri_fingerprint: Seq<char>,
)
    ensures
        ({
            let parts = create_parts(request, cri_fingerprint);
            &&& parts.len() >= 13
            &&& parts[0] == encode_utf8("create-sandbox-request-v2"@)
            &&& parts[1] == encode_utf8("sandbox-id"@)
            &&& parts[2] == encode_utf8(request.sandbox_id)
            &&& parts[3] == encode_utf8("bundle-path"@)
            &&& parts[4] == encode_utf8(request.bundle_path)
            &&& parts[5] == encode_utf8("netns-path"@)
            &&& parts[6] == encode_utf8(request.netns_path)
            &&& parts[7] == encode_utf8("cri-semantic-fingerprint"@)
            &&& parts[8] == encode_utf8(cri_fingerprint)
            &&& parts[9] == encode_utf8("rootfs"@)
            &&& parts[10] == be_bytes(request.rootfs.len() as u64)
            &&& request.rootfs.len() == 0 ==> parts[11] == encode_utf8("annotations"@) && parts[12]
                == be_bytes(request.annotations.len() as u64)
        }),
{
    assert(rootfs_parts(request.rootfs).len() >= 0);
}

/// A mount is written with its labels, and its options behind their number.
pub proof fn law_mounts_are_written_with_labels(mount: MountView, i: int)
    requires
        0 <= i < mount.options.len(),
    ensures
        ({
            let parts = mount_parts(mount);
            &&& parts.len() == 9 + 2 * mount.options.len()
            &&& parts[0] == encode_utf8("mount"@)
            &&& parts[1] == encode_utf8("type"@)
            &&& parts[2] == encode_utf8(mount.kind)
            &&& parts[3] == encode_utf8("source"@)
            &&& parts[4] == encode_utf8(mount.source)
            &&& parts[5] == encode_utf8("target"@)
            &&& parts[6] == encode_utf8(mount.target)
            &&& parts[7] == encode_utf8("options"@)
            &&& parts[8] == be_bytes(mount.options.len() as u64)
            &&& parts[9 + 2 * i] == encode_utf8("option"@)
            &&& parts[10 + 2 * i] == encode_utf8(mount.options[i])
        }),
{
    assert((2 * i) / 2 == i);
    assert((2 * i + 1) / 2 == i);
    assert((2 * i) % 2 == 0);
    assert((2 * i + 1) % 2 == 1);
    assert(option_parts(mount.options)[2 * i] == encode_utf8("option"@));
    assert(option_parts(mount.options)[2 * i + 1] == encode_utf8(mount.options[i]));
}

/// Annotations are written as entries, each with its key before its value, and
/// a key that comes before another in its bytes is written before it.
pub proof fn law_annotations_are_written_in_order(
    entries: Seq<(Seq<u8>, Seq<u8>)>,
    i: int,
)
    requires
        0 <= i < entries.len(),
    ensures
        entry_parts(entries).len() == 3 * entries.len(),
        entry_parts(entries)[3 * i] == encode_utf8("entry"@),
        entry_parts(entries)[3 * i + 1] == entries[i].0,
        entry_parts(entries)[3 * i + 2] == entries[i].1,
{
    assert((3 * i) / 3 == i);
    assert((3 * i + 1) / 3 == i);
    assert((3 * i + 2) / 3 == i);
    assert((3 * i) % 3 == 0);
    assert((3 * i + 1) % 3 == 1);
    assert((3 * i + 2) % 3 == 2);
}

} // verus!
