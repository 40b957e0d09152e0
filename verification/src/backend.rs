//! The stateless bind facade: syncs a buffer's GPU resource (allocate on
//! first use, upload on dirty) and applies a mesh's vertex attributes to the
//! currently bound vertex array.
//!
//! The caller must bind the vertex buffer, then the attributes, then the
//! index buffer before a draw, because attribute configuration reads from
//! whichever array buffer is currently bound.

use vstd::prelude::*;

use crate::buffer::{Buffer, BufferView};
use crate::bytes::clone_bytes;
use crate::device::{count_where, is_upload, lemma_count_where_concat, Command, CommandView, Device};
use crate::resource;
use crate::stream;

verus! {

/// The role the buffer is bound under: the one recorded at its first bind,
/// or the requested one if this is the first bind.
pub open spec fn spec_sync_role(b: BufferView, kind: resource::Type) -> resource::Type {
    if b.role == resource::Type::Invalid {
        kind
    } else {
        b.role
    }
}

/// The native handle the bind uses: the existing one, or the fresh handle
/// `fresh` if this is the first bind.
pub open spec fn spec_sync_handle(b: BufferView, fresh: u32) -> u32 {
    if b.role == resource::Type::Invalid {
        fresh
    } else {
        b.handle
    }
}

/// Commands one sync appends: an allocation only on the first bind, always a
/// bind, and a full upload of the buffer's bytes only while it is dirty.
pub open spec fn spec_sync_log(b: BufferView, kind: resource::Type, fresh: u32) -> Seq<
    CommandView,
> {
    let role = spec_sync_role(b, kind);
    let handle = spec_sync_handle(b, fresh);
    let gen: Seq<CommandView> = if b.role == resource::Type::Invalid {
        seq![CommandView::GenBuffer { handle: fresh }]
    } else {
        Seq::empty()
    };
    let upload: Seq<CommandView> = if b.dirty {
        seq![CommandView::BufferData { kind: role, bytes: b.data }]
    } else {
        Seq::empty()
    };
    gen + seq![CommandView::BindBuffer { kind: role, handle }] + upload
}

/// One when a sync of this buffer would allocate a native handle (first
/// bind), zero otherwise.
pub open spec fn spec_alloc_count(b: BufferView) -> int {
    if b.role == resource::Type::Invalid {
        1
    } else {
        0
    }
}

/// The buffer after one sync: same bytes, clean, allocated under the role of
/// its first bind.
pub open spec fn spec_sync_buffer(b: BufferView, kind: resource::Type, fresh: u32) -> BufferView {
    BufferView {
        data: b.data,
        handle: spec_sync_handle(b, fresh),
        role: spec_sync_role(b, kind),
        dirty: false,
    }
}

/// The image of the attribute-setup command for one attribute: its shader
/// slot, component count, byte stride and byte offset.
pub open spec fn attribute_command(a: stream::Attribute) -> CommandView {
    CommandView::EnableAttribute {
        slot: stream::spec_slot_index(a.slot) as u32,
        dimension: stream::spec_dimension_size(a.format.dimension) as u32,
        stride: stream::spec_stride(a.format) as u32,
        offset: stream::spec_total_offset(a) as usize,
    }
}

/// The attribute-setup commands for a whole attribute list, in order.
pub open spec fn attribute_commands(s: Seq<stream::Attribute>) -> Seq<CommandView> {
    s.map_values(|a: stream::Attribute| attribute_command(a))
}

pub struct Backend {}

impl Backend {
    /// Binds the buffer under `resource_type`, allocating its native handle
    /// on first use and recording the role permanently; uploads the bytes in
    /// full if and only if the buffer is dirty, and clears the dirty flag.
    pub fn sync_buffer(dev: &mut Device, buffer: &mut Buffer, resource_type: resource::Type)
        requires
            old(dev).wf(),
            old(dev).next_handle < u32::MAX,
            resource_type != resource::Type::Invalid,
        ensures
            final(dev).wf(),
            final(buffer)@ == spec_sync_buffer(old(buffer)@, resource_type, old(dev).next_handle),
            final(dev).log() == old(dev).log() + spec_sync_log(
                old(buffer)@,
                resource_type,
                old(dev).next_handle,
            ),
            final(dev).next_handle == old(dev).next_handle + (
            if old(buffer)@.role == resource::Type::Invalid {
                1int
            } else {
                0int
            }),
    {
        let ghost b0 = old(buffer)@;
        let ghost fresh = old(dev).next_handle;
        if buffer.gpu_resource.resource_type == resource::Type::Invalid {
            let h = dev.fresh_handle();
            dev.record(Command::GenBuffer { handle: h });
            buffer.gpu_resource.handle = h;
            buffer.gpu_resource.resource_type = resource_type;
        }
        let role = buffer.gpu_resource.resource_type;
        let handle = buffer.gpu_resource.handle;
        dev.record(Command::BindBuffer { kind: role, handle });
        if buffer.dirty {
            let bytes = clone_bytes(&buffer.data);
            dev.record(Command::BufferData { kind: role, bytes });
            buffer.dirty = false;
        }
        proof {
            assert(dev.log() =~= old(dev).log() + spec_sync_log(b0, resource_type, fresh));
        }
    }

    pub fn set_vertex_buffer(dev: &mut Device, buffer: &mut Buffer)
        requires
            old(dev).wf(),
            old(dev).next_handle < u32::MAX,
        ensures
            final(dev).wf(),
            final(buffer)@ == spec_sync_buffer(
                old(buffer)@,
                resource::Type::ArrayBuffer,
                old(dev).next_handle,
            ),
            final(dev).log() == old(dev).log() + spec_sync_log(
                old(buffer)@,
                resource::Type::ArrayBuffer,
                old(dev).next_handle,
            ),
            final(dev).next_handle == old(dev).next_handle + (
            if old(buffer)@.role == resource::Type::Invalid {
                1int
            } else {
                0int
            }),
    {
        Backend::sync_buffer(dev, buffer, resource::Type::ArrayBuffer)
    }

    pub fn set_index_buffer(dev: &mut Device, buffer: &mut Buffer)
        requires
            old(dev).wf(),
            old(dev).next_handle < u32::MAX,
        ensures
            final(dev).wf(),
            final(buffer)@ == spec_sync_buffer(
                old(buffer)@,
                resource::Type::IndexBuffer,
                old(dev).next_handle,
            ),
            final(dev).log() == old(dev).log() + spec_sync_log(
                old(buffer)@,
                resource::Type::IndexBuffer,
                old(dev).next_handle,
            ),
            final(dev).next_handle == old(dev).next_handle + (
            if old(buffer)@.role == resource::Type::Invalid {
                1int
            } else {
                0int
            }),
    {
        Backend::sync_buffer(dev, buffer, resource::Type::IndexBuffer)
    }

    pub fn set_uniform_buffer(dev: &mut Device, buffer: &mut Buffer)
        requires
            old(dev).wf(),
            old(dev).next_handle < u32::MAX,
        ensures
            final(dev).wf(),
            final(buffer)@ == spec_sync_buffer(
                old(buffer)@,
                resource::Type::UniformBuffer,
                old(dev).next_handle,
            ),
            final(dev).log() == old(dev).log() + spec_sync_log(
                old(buffer)@,
                resource::Type::UniformBuffer,
                old(dev).next_handle,
            ),
            final(dev).next_handle == old(dev).next_handle + (
            if old(buffer)@.role == resource::Type::Invalid {
                1int
            } else {
                0int
            }),
    {
        Backend::sync_buffer(dev, buffer, resource::Type::UniformBuffer)
    }

    /// Configures and enables one vertex-array slot per attribute, in order,
    /// each with the component count, stride and byte offset its format
    /// derives.
    pub fn set_attributes(dev: &mut Device, attributes: &Vec<stream::Attribute>)
        requires
            forall|k: int| 0 <= k < attributes@.len() ==> {
                &&& (#[trigger] attributes@[k]).format._type != stream::Type::NUM
                &&& attributes@[k].format.dimension != stream::Dimension::NUM
                &&& stream::spec_total_offset(attributes@[k]) <= usize::MAX
            },
        ensures
            final(dev).next_handle == old(dev).next_handle,
            final(dev).log() == old(dev).log() + attribute_commands(attributes@),
    {
        let mut i: usize = 0;
        while i < attributes.len()
            invariant
                i <= attributes@.len(),
                forall|k: int| 0 <= k < attributes@.len() ==> {
                    &&& (#[trigger] attributes@[k]).format._type != stream::Type::NUM
                    &&& attributes@[k].format.dimension != stream::Dimension::NUM
                    &&& stream::spec_total_offset(attributes@[k]) <= usize::MAX
                },
                dev.next_handle == old(dev).next_handle,
                dev.log() == old(dev).log() + attribute_commands(attributes@.take(i as int)),
            decreases attributes@.len() - i,
        {
            let attribute = attributes[i];
            let format = attribute.format;
            let slot = attribute.slot.index();
            let format_dimension = format.dimension_size();
            let stride = format.stride();
            let offset = attribute.get_total_offset();
            let c = Command::EnableAttribute {
                slot,
                dimension: format_dimension as u32,
                stride: stride as u32,
                offset,
            };
            proof {
                assert(c@ == attribute_command(attributes@[i as int]));
            }
            dev.record(c);
            proof {
                assert(attribute_commands(attributes@.take(i + 1 as int)) =~= attribute_commands(
                    attributes@.take(i as int),
                ).push(attribute_command(attributes@[i as int])));
                assert(dev.log() =~= old(dev).log() + attribute_commands(
                    attributes@.take(i + 1 as int),
                ));
            }
            i = i + 1;
        }
        proof {
            assert(attributes@.take(attributes@.len() as int) =~= attributes@);
        }
    }
}

/// Law: one sync uploads the buffer's bytes exactly once while the buffer is
/// dirty and never while it is clean; after a sync the buffer is clean, so a
/// second sync of the same buffer uploads nothing, and two binds in a row
/// upload at most once. Marking the synced buffer dirty again makes the next
/// sync upload exactly its current bytes once more.
pub proof fn lemma_upload_on_dirty(b: BufferView, kind: resource::Type, h1: u32, h2: u32)
    ensures
        b.dirty ==> count_where(spec_sync_log(b, kind, h1), is_upload()) == 1,
        !b.dirty ==> count_where(spec_sync_log(b, kind, h1), is_upload()) == 0,
        count_where(spec_sync_log(spec_sync_buffer(b, kind, h1), kind, h2), is_upload()) == 0,
        count_where(
            spec_sync_log(b, kind, h1) + spec_sync_log(spec_sync_buffer(b, kind, h1), kind, h2),
            is_upload(),
        ) <= 1,
        uploads_of(spec_sync_log(b, kind, h1)) == if b.dirty {
            seq![b.data]
        } else {
            Seq::<Seq<u8>>::empty()
        },
        uploads_of(
            spec_sync_log(BufferView { dirty: true, ..spec_sync_buffer(b, kind, h1) }, kind, h2),
        ) == seq![b.data],
{
    lemma_sync_log_uploads(b, kind, h1);
    lemma_sync_log_uploads(spec_sync_buffer(b, kind, h1), kind, h2);
    lemma_sync_log_uploads(
        BufferView { dirty: true, ..spec_sync_buffer(b, kind, h1) },
        kind,
        h2,
    );
    lemma_count_where_concat(
        spec_sync_log(b, kind, h1),
        spec_sync_log(spec_sync_buffer(b, kind, h1), kind, h2),
        is_upload(),
    );
}

/// A buffer sync touches no texture: it attaches nothing, draws nothing,
/// mentions no texture handle, and sets no rational uniform.
pub proof fn lemma_sync_log_quiet(b: BufferView, kind: resource::Type, fresh: u32, h: u32)
    ensures
        count_where(spec_sync_log(b, kind, fresh), crate::device::is_attach_to(h)) == 0,
        count_where(spec_sync_log(b, kind, fresh), crate::device::is_draw()) == 0,
        count_where(spec_sync_log(b, kind, fresh), crate::device::mentions_texture(h)) == 0,
        count_where(spec_sync_log(b, kind, fresh), crate::device::is_ratio_set()) == 0,
{
    let s = spec_sync_log(b, kind, fresh);
    assert(s.len() <= 3);
    assert forall|i: int| 0 <= i < s.len() implies !crate::device::is_attach_to(h)(s[i])
        && !crate::device::is_draw()(s[i]) && !crate::device::mentions_texture(h)(s[i])
        && !crate::device::is_ratio_set()(s[i]) by {
        assert(s[i] matches CommandView::GenBuffer { .. } || s[i] matches CommandView::BindBuffer {
            ..
        } || s[i] matches CommandView::BufferData { .. });
    }
    crate::device::lemma_count_where_all_false(s, crate::device::is_attach_to(h));
    crate::device::lemma_count_where_all_false(s, crate::device::is_draw());
    crate::device::lemma_count_where_all_false(s, crate::device::mentions_texture(h));
    crate::device::lemma_count_where_all_false(s, crate::device::is_ratio_set());
}

/// Attribute setup touches no texture either.
pub proof fn lemma_attribute_commands_quiet(s: Seq<stream::Attribute>, h: u32)
    ensures
        count_where(attribute_commands(s), crate::device::is_attach_to(h)) == 0,
        count_where(attribute_commands(s), crate::device::is_draw()) == 0,
        count_where(attribute_commands(s), crate::device::mentions_texture(h)) == 0,
        count_where(attribute_commands(s), crate::device::is_ratio_set()) == 0,
{
    let cs = attribute_commands(s);
    assert forall|i: int| 0 <= i < cs.len() implies !crate::device::is_attach_to(h)(cs[i])
        && !crate::device::is_draw()(cs[i]) && !crate::device::mentions_texture(h)(cs[i])
        && !crate::device::is_ratio_set()(cs[i]) by {
        assert(cs[i] == attribute_command(s[i]));
    }
    crate::device::lemma_count_where_all_false(cs, crate::device::is_attach_to(h));
    crate::device::lemma_count_where_all_false(cs, crate::device::is_draw());
    crate::device::lemma_count_where_all_false(cs, crate::device::mentions_texture(h));
    crate::device::lemma_count_where_all_false(cs, crate::device::is_ratio_set());
}

/// The bytes uploaded by the commands of `s`, in order.
pub open spec fn uploads_of(s: Seq<CommandView>) -> Seq<Seq<u8>>
    decreases s.len(),
{
    if s.len() == 0 {
        Seq::empty()
    } else {
        uploads_of(s.drop_last()) + (match s.last() {
            CommandView::BufferData { bytes, .. } => seq![bytes],
            _ => Seq::<Seq<u8>>::empty(),
        })
    }
}

/// One sync's log uploads exactly the buffer's bytes if it was dirty, and
/// nothing otherwise.
proof fn lemma_sync_log_uploads(b: BufferView, kind: resource::Type, fresh: u32)
    ensures
        uploads_of(spec_sync_log(b, kind, fresh)) == if b.dirty {
            seq![b.data]
        } else {
            Seq::<Seq<u8>>::empty()
        },
        count_where(spec_sync_log(b, kind, fresh), is_upload()) == if b.dirty {
            1nat
        } else {
            0nat
        },
{
    let s = spec_sync_log(b, kind, fresh);
    let role = spec_sync_role(b, kind);
    let handle = spec_sync_handle(b, fresh);
    let bind = CommandView::BindBuffer { kind: role, handle };
    let up = CommandView::BufferData { kind: role, bytes: b.data };
    if b.role == resource::Type::Invalid {
        let gen = CommandView::GenBuffer { handle: fresh };
        if b.dirty {
            assert(s =~= seq![gen, bind, up]);
            lemma_uploads_three(gen, bind, up);
        } else {
            assert(s =~= seq![gen, bind]);
            lemma_uploads_two(gen, bind);
        }
    } else {
        if b.dirty {
            assert(s =~= seq![bind, up]);
            lemma_uploads_two(bind, up);
        } else {
            assert(s =~= seq![bind]);
            lemma_uploads_one(bind);
        }
    }
}

proof fn lemma_uploads_one(a: CommandView)
    ensures
        uploads_of(seq![a]) == (match a {
            CommandView::BufferData { bytes, .. } => seq![bytes],
            _ => Seq::<Seq<u8>>::empty(),
        }),
        count_where(seq![a], is_upload()) == (if is_upload()(a) {
            1nat
        } else {
            0nat
        }),
{
    reveal_with_fuel(count_where, 3);
    reveal_with_fuel(uploads_of, 3);
    let s = seq![a];
    assert(s.drop_last() =~= Seq::<CommandView>::empty());
    assert(count_where(Seq::<CommandView>::empty(), is_upload()) == 0);
    assert(uploads_of(s.drop_last()) + (match s.last() {
        CommandView::BufferData { bytes, .. } => seq![bytes],
        _ => Seq::<Seq<u8>>::empty(),
    }) =~= (match a {
        CommandView::BufferData { bytes, .. } => seq![bytes],
        _ => Seq::<Seq<u8>>::empty(),
    }));
}

proof fn lemma_uploads_two(a: CommandView, b: CommandView)
    requires
        !is_upload()(a),
    ensures
        uploads_of(seq![a, b]) == (match b {
            CommandView::BufferData { bytes, .. } => seq![bytes],
            _ => Seq::<Seq<u8>>::empty(),
        }),
        count_where(seq![a, b], is_upload()) == (if is_upload()(b) {
            1nat
        } else {
            0nat
        }),
{
    reveal_with_fuel(count_where, 2);
    reveal_with_fuel(uploads_of, 2);
    let s = seq![a, b];
    assert(s.drop_last() =~= seq![a]);
    lemma_uploads_one(a);
    assert(uploads_of(seq![a]) =~= Seq::<Seq<u8>>::empty());
    assert(uploads_of(s) =~= uploads_of(seq![a]) + (match b {
        CommandView::BufferData { bytes, .. } => seq![bytes],
        _ => Seq::<Seq<u8>>::empty(),
    }));
    assert(uploads_of(s) =~= (match b {
        CommandView::BufferData { bytes, .. } => seq![bytes],
        _ => Seq::<Seq<u8>>::empty(),
    }));
}

proof fn lemma_uploads_three(a: CommandView, b: CommandView, c: CommandView)
    requires
        !is_upload()(a),
        !is_upload()(b),
    ensures
        uploads_of(seq![a, b, c]) == (match c {
            CommandView::BufferData { bytes, .. } => seq![bytes],
            _ => Seq::<Seq<u8>>::empty(),
        }),
        count_where(seq![a, b, c], is_upload()) == (if is_upload()(c) {
            1nat
        } else {
            0nat
        }),
{
    reveal_with_fuel(count_where, 2);
    reveal_with_fuel(uploads_of, 2);
    let s = seq![a, b, c];
    assert(s.drop_last() =~= seq![a, b]);
    lemma_uploads_two(a, b);
    assert(uploads_of(seq![a, b]) =~= Seq::<Seq<u8>>::empty());
    assert(uploads_of(s) =~= uploads_of(seq![a, b]) + (match c {
        CommandView::BufferData { bytes, .. } => seq![bytes],
        _ => Seq::<Seq<u8>>::empty(),
    }));
    assert(uploads_of(s) =~= (match c {
        CommandView::BufferData { bytes, .. } => seq![bytes],
        _ => Seq::<Seq<u8>>::empty(),
    }));
}

} // verus!
