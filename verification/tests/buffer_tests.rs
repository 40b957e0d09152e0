use pbr_demo::backend::Backend;
use pbr_demo::buffer::Buffer;
use pbr_demo::device::{Command, Device};

fn uploads(dev: &Device) -> Vec<Vec<u8>> {
    let mut out: Vec<Vec<u8>> = Vec::new();
    for c in dev.commands.iter() {
        if let Command::BufferData { bytes, .. } = c {
            out.push(bytes.clone());
        }
    }
    out
}

fn buffer_deletes(dev: &Device) -> usize {
    dev.commands
        .iter()
        .filter(|c| matches!(c, Command::DeleteBuffer { .. }))
        .count()
}

#[test]
fn binding_clean_buffer_twice_uploads_once() {
    let mut dev = Device::new();
    let mut buf = Buffer::new(vec![1, 2, 3]);
    Backend::set_vertex_buffer(&mut dev, &mut buf);
    Backend::set_vertex_buffer(&mut dev, &mut buf);
    let ups = uploads(&dev);
    assert_eq!(ups.len(), 1);
    assert_eq!(ups[0], vec![1, 2, 3]);
}

#[test]
fn dirty_flag_forces_one_more_upload_with_current_bytes() {
    let mut dev = Device::new();
    let mut buf = Buffer::new(vec![1, 2, 3]);
    Backend::set_vertex_buffer(&mut dev, &mut buf);
    buf.data.clear();
    buf.data.extend_from_slice(&[9, 9]);
    buf.dirty = true;
    Backend::set_vertex_buffer(&mut dev, &mut buf);
    let ups = uploads(&dev);
    assert_eq!(ups.len(), 2);
    assert_eq!(ups[1], vec![9, 9]);
    assert!(!buf.dirty);
}

#[test]
fn buffer_allocates_once_and_keeps_its_role() {
    let mut dev = Device::new();
    let mut buf = Buffer::new(vec![7]);
    Backend::set_index_buffer(&mut dev, &mut buf);
    Backend::set_index_buffer(&mut dev, &mut buf);
    let gens = dev
        .commands
        .iter()
        .filter(|c| matches!(c, Command::GenBuffer { .. }))
        .count();
    assert_eq!(gens, 1);
    assert_eq!(buf.gpu_resource.resource_type, pbr_demo::resource::Type::IndexBuffer);
    assert_ne!(buf.gpu_resource.handle, 0);
}

#[test]
fn release_never_bound_is_a_no_op() {
    let mut dev = Device::new();
    let mut buf = Buffer::new(vec![1]);
    buf.release(&mut dev);
    assert_eq!(buffer_deletes(&dev), 0);
}

#[test]
fn release_after_bind_deletes_exactly_once() {
    let mut dev = Device::new();
    let mut buf = Buffer::new(vec![1]);
    Backend::set_uniform_buffer(&mut dev, &mut buf);
    buf.release(&mut dev);
    buf.release(&mut dev);
    assert_eq!(buffer_deletes(&dev), 1);
    assert_eq!(buf.gpu_resource.handle, 0);
}

#[test]
fn attributes_are_enabled_in_order() {
    let mut dev = Device::new();
    let attrs = vec![pbr_demo::stream::Attribute {
        format: pbr_demo::stream::Format::new(
            pbr_demo::stream::Dimension::VEC3,
            pbr_demo::stream::Type::FLOAT,
            pbr_demo::stream::Usage::DATA,
        ),
        slot: pbr_demo::stream::Slot::Position,
        offset: 0,
    }];
    Backend::set_attributes(&mut dev, &attrs);
    assert_eq!(dev.commands.len(), 1);
    match &dev.commands[0] {
        Command::EnableAttribute { slot, dimension, stride, offset } => {
            assert_eq!(*slot, 0);
            assert_eq!(*dimension, 3);
            assert_eq!(*stride, 12);
            assert_eq!(*offset, 0);
        },
        other => panic!("unexpected command: {:?}", other),
    }
}
