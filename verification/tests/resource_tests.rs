use kiln::{
    compute_pass_opening, BindGroupDescriptor, BindGroupLayoutDescriptor, BindGroupLayoutEntry,
    BindingType, BufferBindingType, ComputePassCommands, ComputePipelineDescriptor,
    GpuResourceDescriptorMap, GpuResourceMap, GpuSync, GpuSyncState, Id, IdSource, IndexFormat,
    Mat2x2, Mat3x3, Mat4x4, RawBuffer, RefComputePassCommand, RefRenderPassCommand,
    RenderPassCommands, RenderPipelineDescriptor, ResolveError, ShaderModuleDescriptor,
    SliceBound, UniformBuffer, Vec2, Vec3, Vec4,
};
use kiln::buffer::BufferData;

fn module_desc(source: &str) -> ShaderModuleDescriptor {
    ShaderModuleDescriptor { label: None, source: String::from(source) }
}

#[test]
fn handle_generation_is_injective() {
    let mut source: IdSource<u32> = IdSource::default();
    let a = source.generate();
    let b = source.generate();
    let c = source.generate();
    assert!(a.value() != b.value());
    assert!(a.value() != c.value());
    assert!(b.value() != c.value());
}

#[test]
fn handle_from_raw_and_cast_keep_value() {
    let id: Id<u32> = Id::from_raw(17);
    assert_eq!(id.value(), 17);
    let cast: Id<u64> = id.cast();
    assert_eq!(cast.value(), 17);
    assert!(id == Id::from_raw(17));
    assert!(id != Id::from_raw(18));
}

#[test]
fn resource_map_insert_get_remove() {
    let mut map: GpuResourceMap<RawBuffer, String> = GpuResourceMap::default();
    let id = map.push(String::from("alpha"));
    assert!(map.contains(&id));
    assert_eq!(map.get(&id).unwrap(), "alpha");
    let other = map.generate();
    assert!(!map.contains(&other));
    assert!(map.get(&other).is_none());
    map.remove(&id);
    assert!(!map.contains(&id));
    // removing an absent handle is a no-op
    map.remove(&id);
    let pre = map.insert(other, String::from("beta"));
    assert!(pre.is_none());
    assert_eq!(map.get(&other).unwrap(), "beta");
}

#[test]
fn descriptor_cache_deduplicates() {
    let mut cache: GpuResourceDescriptorMap<ShaderModuleDescriptor, u32> = Default::default();
    let mut creations = 0;
    let id1 = cache.get_or_create(module_desc("fn main() {}"), || {
        creations += 1;
        11
    });
    let id2 = cache.get_or_create(module_desc("fn main() {}"), || {
        creations += 1;
        22
    });
    assert!(id1 == id2);
    assert_eq!(creations, 1);
    assert_eq!(*cache.get_id(&id1).unwrap(), 11);
}

#[test]
fn distinct_descriptors_get_distinct_handles() {
    let mut cache: GpuResourceDescriptorMap<ShaderModuleDescriptor, u32> = Default::default();
    let id1 = cache.get_or_create(module_desc("a"), || 1);
    let id2 = cache.get_or_create(module_desc("b"), || 2);
    assert!(id1 != id2);
    assert_eq!(*cache.get_id(&id1).unwrap(), 1);
    assert_eq!(*cache.get_id(&id2).unwrap(), 2);
}

#[test]
fn descriptor_cache_label_and_entries_are_part_of_the_key() {
    let mut cache: GpuResourceDescriptorMap<BindGroupLayoutDescriptor, u32> = Default::default();
    let entry = BindGroupLayoutEntry {
        binding: 0,
        visibility: 4,
        ty: BindingType::Buffer {
            ty: BufferBindingType::Uniform,
            has_dynamic_offset: false,
            min_binding_size: 0,
        },
        count: 0,
    };
    let d1 = BindGroupLayoutDescriptor { label: None, entries: vec![entry] };
    let d2 = BindGroupLayoutDescriptor { label: Some(String::from("x")), entries: vec![entry] };
    let d3 = BindGroupLayoutDescriptor { label: None, entries: vec![entry] };
    let id1 = cache.get_or_create(d1, || 1);
    let id2 = cache.get_or_create(d2, || 2);
    let id3 = cache.get_or_create(d3, || 3);
    assert!(id1 != id2);
    assert!(id1 == id3);
}

#[test]
fn fallible_creation_propagates_and_writes_nothing() {
    let mut cache: GpuResourceDescriptorMap<ShaderModuleDescriptor, u32> = Default::default();
    let r: Result<_, &str> = cache.try_get_or_create(module_desc("bad"), || Err("rejected"));
    assert_eq!(r.unwrap_err(), "rejected");
    let mut creations = 0;
    let id = cache
        .try_get_or_create::<&str, _>(module_desc("bad"), || {
            creations += 1;
            Ok(5)
        })
        .unwrap();
    assert_eq!(creations, 1);
    assert_eq!(*cache.get_id(&id).unwrap(), 5);
}

#[test]
fn sync_state_machine_transitions() {
    let mut sync = GpuSync::new(None);
    assert!(sync.state().is_none());
    sync.mark_cpu();
    assert_eq!(sync.state(), Some(GpuSyncState::Cpu));
    assert!(sync.is_changed_cpu());
    assert!(!sync.is_changed_gpu());
    sync.mark_gpu();
    assert_eq!(sync.state(), Some(GpuSyncState::Gpu));
    assert!(!sync.is_changed_cpu());
    sync.mark_unchanged();
    assert!(sync.state().is_none());
    assert!(GpuSyncState::Cpu.is_cpu());
    assert!(!GpuSyncState::Cpu.is_gpu());
    assert!(GpuSyncState::Gpu.is_gpu());
    let started = GpuSync::new(Some(GpuSyncState::Gpu));
    assert_eq!(started.state(), Some(GpuSyncState::Gpu));
}

#[test]
fn uniform_buffer_flush_pull_round_trip() {
    let raw = Id::from_raw(0);
    let mut buffer: UniformBuffer<u32> = UniformBuffer::new(raw, 7);
    buffer.write(0x0102_0304);
    assert_eq!(buffer.state(), Some(GpuSyncState::Cpu));
    // the device side: hold the flushed bytes, then hand them back
    let device_copy = buffer.bytes();
    buffer.complete_flush();
    assert!(buffer.state().is_none());
    buffer.mark_gpu_changed();
    assert_eq!(buffer.state(), Some(GpuSyncState::Gpu));
    buffer.complete_pull(device_copy.as_slice());
    assert!(buffer.state().is_none());
    assert_eq!(*buffer.read(), 0x0102_0304);
}

#[test]
fn host_write_then_pull_is_sequenced_through_a_flush() {
    let mut buffer: UniformBuffer<u32> = UniformBuffer::new(Id::from_raw(1), 1);
    buffer.write(2);
    // after a host write the tracker owes a flush, never a pull, so the
    // written value cannot be overwritten by stale device data
    assert_eq!(buffer.state(), Some(GpuSyncState::Cpu));
    buffer.complete_flush();
    assert_eq!(*buffer.read(), 2);
}

#[test]
fn dirty_host_read_returns_host_bytes_unchanged() {
    let mut buffer: UniformBuffer<u32> = UniformBuffer::new(Id::from_raw(2), 3);
    buffer.write(99);
    // no sync has run; the read sees the host copy and changes nothing
    assert_eq!(*buffer.read(), 99);
    assert_eq!(buffer.state(), Some(GpuSyncState::Cpu));
    assert_eq!(buffer.bytes(), vec![99, 0, 0, 0]);
}

#[test]
fn buffer_data_u32_encoding_is_little_endian() {
    let bytes = 0x0102_0304u32.as_bytes();
    assert_eq!(bytes, vec![4, 3, 2, 1]);
    assert_eq!(u32::from_bytes(&bytes), 0x0102_0304);
    assert_eq!(u32::size(), 4);
}

#[test]
fn compute_commands_resolve_in_recording_order() {
    let mut pipelines: GpuResourceDescriptorMap<ComputePipelineDescriptor, String> =
        Default::default();
    let mut groups: GpuResourceDescriptorMap<BindGroupDescriptor, String> = Default::default();
    let module = Id::from_raw(0);
    let pipeline = pipelines.get_or_create(
        ComputePipelineDescriptor {
            label: None,
            layout: None,
            module,
            entry_point: String::from("main"),
        },
        || String::from("pipeline"),
    );
    let layout = Id::from_raw(0);
    let group = groups.get_or_create(
        BindGroupDescriptor { label: None, layout, entries: Vec::new() },
        || String::from("group"),
    );
    let mut commands = compute_pass_opening(pipeline, &vec![group]);
    commands.dispatch(1, 1, 1);
    let resolved = commands.to_ref_commands(&pipelines, &groups).unwrap();
    let list = resolved.commands();
    assert_eq!(list.len(), 3);
    assert!(matches!(&list[0], RefComputePassCommand::SetPipeline { pipeline } if **pipeline == "pipeline"));
    assert!(
        matches!(&list[1], RefComputePassCommand::SetBindGroup { index: 0, bind_group, .. } if **bind_group == "group")
    );
    assert!(matches!(&list[2], RefComputePassCommand::Dispatch { x: 1, y: 1, z: 1 }));
}

#[test]
fn resolving_a_removed_handle_fails_without_replay() {
    let mut pipelines: GpuResourceDescriptorMap<ComputePipelineDescriptor, String> =
        Default::default();
    let groups: GpuResourceDescriptorMap<BindGroupDescriptor, String> = Default::default();
    let pipeline = pipelines.push(String::from("pipeline"));
    let mut commands = ComputePassCommands::default();
    commands.set_pipeline(pipeline);
    let missing = Id::from_raw(42);
    commands.set_bind_group(0, missing, Vec::new());
    commands.dispatch(1, 1, 1);
    let r = commands.to_ref_commands(&pipelines, &groups);
    assert!(matches!(r, Err(ResolveError::HandleNotFound { handle: 42 })));
}

#[test]
fn render_commands_resolve_against_three_stores() {
    let mut pipelines: GpuResourceDescriptorMap<RenderPipelineDescriptor, String> =
        Default::default();
    let groups: GpuResourceDescriptorMap<BindGroupDescriptor, String> = Default::default();
    let mut buffers: GpuResourceMap<RawBuffer, String> = GpuResourceMap::default();
    let pipeline = pipelines.get_or_create(RenderPipelineDescriptor {}, || String::from("rp"));
    let buffer = buffers.push(String::from("vertices"));
    let mut commands = RenderPassCommands::default();
    commands.set_pipeline(pipeline);
    commands.set_vertex_buffer(
        0,
        buffer.slice(SliceBound::Included(0), SliceBound::Unbounded),
    );
    commands.set_index_buffer(
        buffer.slice(SliceBound::Included(4), SliceBound::Excluded(8)),
        IndexFormat::Uint16,
    );
    let resolved = commands.to_ref_commands(&pipelines, &groups, &buffers).unwrap();
    let list = resolved.commands();
    assert_eq!(list.len(), 3);
    assert!(matches!(&list[0], RefRenderPassCommand::SetPipeline { pipeline } if **pipeline == "rp"));
    assert!(
        matches!(&list[1], RefRenderPassCommand::SetVertexBuffer { slot: 0, buffer, .. } if **buffer == "vertices")
    );
    assert!(
        matches!(&list[2], RefRenderPassCommand::SetIndexBuffer { format: IndexFormat::Uint16, .. })
    );
    buffers.remove(&buffer);
    let failed = commands.to_ref_commands(&pipelines, &groups, &buffers);
    assert!(matches!(failed, Err(ResolveError::HandleNotFound { .. })));
}

#[test]
fn matrices_are_built_from_columns() {
    let m2 = Mat2x2::new(Vec2 { x: 1, y: 2 }, Vec2 { x: 3, y: 4 });
    assert_eq!(m2.x.y, 2);
    assert_eq!(m2.y.x, 3);
    let m3 = Mat3x3::new(
        Vec3 { x: 1, y: 0, z: 0 },
        Vec3 { x: 0, y: 1, z: 0 },
        Vec3 { x: 0, y: 0, z: 1 },
    );
    assert_eq!(m3.z.z, 1);
    let m4 = Mat4x4::new(
        Vec4 { x: 1, y: 0, z: 0, w: 0 },
        Vec4 { x: 0, y: 1, z: 0, w: 0 },
        Vec4 { x: 0, y: 0, z: 1, w: 0 },
        Vec4 { x: 0, y: 0, z: 0, w: 1 },
    );
    assert_eq!(m4.w.w, 1);
    assert_eq!(m4.x.w, 0);
}
