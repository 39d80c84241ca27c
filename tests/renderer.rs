use block_renderer::input::{Key, KeyState, WindowEvent};
use block_renderer::instances::{instance_grid, GridCell};
use block_renderer::mesh::{Mesh, Quad};
use block_renderer::model::{BufferDevice, BufferUsage, GeometryBuffer, Model};
use block_renderer::pipeline::PipelineVariant;
use block_renderer::renderer::{
    pick_surface_format, EventAction, Extent, FrameAction, FrameOutcome, FramePlan, Phase,
    RenderState, ResizeAction,
};

struct Handles {
    next: u32,
}

impl<E> BufferDevice<E, u32> for Handles {
    fn create_buffer(&mut self, _usage: BufferUsage, _contents: &[E]) -> u32 {
        self.next += 1;
        self.next
    }
}

fn scene() -> (Model<u32>, GeometryBuffer<u32>) {
    let mut device = Handles { next: 0 };
    let mut mesh = Mesh::new();
    mesh.push_quad(Quad::new([0u8; 4], [1u8; 4], [2u8; 4], [3u8; 4]));
    let model = Model::new(&mut device, &mesh).unwrap();
    let cells = instance_grid(10);
    let instances = GeometryBuffer::new(&mut device, BufferUsage::Vertex, &cells[..]);
    (model, instances)
}

fn ready(width: u32, height: u32) -> RenderState {
    let mut state = RenderState::new();
    state.initialize(width, height);
    state
}

fn key(key: Key, state: KeyState) -> WindowEvent {
    WindowEvent::Keyboard { key, state }
}

#[test]
fn new_state_waits_for_a_surface() {
    let mut state = RenderState::new();
    let (model, instances) = scene();
    assert_eq!(state.phase(), Phase::Uninitialized);
    assert_eq!(state.active_pipeline(), PipelineVariant::Instanced);
    assert_eq!(state.begin_frame(&model, &instances), None);
    assert_eq!(state.resize(800, 600), ResizeAction::Ignore);
}

#[test]
fn frames_follow_resizes_and_the_toggle() {
    let (model, instances) = scene();
    let mut state = ready(640, 480);
    assert_eq!(state.phase(), Phase::Ready);
    assert_eq!(state.depth_size(), Extent { width: 640, height: 480 });

    let plan = state.begin_frame(&model, &instances).unwrap();
    assert_eq!(
        plan,
        FramePlan {
            pipeline: PipelineVariant::Instanced,
            target: Extent { width: 640, height: 480 },
            index_count: 6,
            instance_count: 100,
        }
    );
    assert_eq!(state.phase(), Phase::Rendering);
    assert_eq!(state.end_frame(FrameOutcome::Presented), FrameAction::Continue);
    assert_eq!(state.phase(), Phase::Ready);

    assert_eq!(
        state.resize(800, 600),
        ResizeAction::Reconfigure(Extent { width: 800, height: 600 })
    );
    let plan = state.begin_frame(&model, &instances).unwrap();
    assert_eq!(plan.target, Extent { width: 800, height: 600 });
    assert_eq!(state.depth_size(), state.surface_size());
    assert_eq!(state.end_frame(FrameOutcome::Presented), FrameAction::Continue);

    assert!(state.input(&key(Key::Space, KeyState::Pressed)));
    assert!(state.input(&key(Key::Space, KeyState::Released)));
    let toggled = state.begin_frame(&model, &instances).unwrap();
    assert_eq!(toggled.pipeline, PipelineVariant::Basic);
    assert_eq!(toggled.target, plan.target);
    assert_eq!(toggled.index_count, plan.index_count);
    assert_eq!(toggled.instance_count, plan.instance_count);
}

#[test]
fn resize_with_a_zero_side_changes_nothing() {
    let mut state = ready(640, 480);
    assert_eq!(state.resize(0, 600), ResizeAction::Ignore);
    assert_eq!(state.resize(800, 0), ResizeAction::Ignore);
    assert_eq!(state.resize(0, 0), ResizeAction::Ignore);
    assert_eq!(state.surface_size(), Extent { width: 640, height: 480 });
    assert_eq!(state.depth_size(), Extent { width: 640, height: 480 });
    assert_eq!(state.phase(), Phase::Ready);
}

#[test]
fn toggle_mid_frame_waits_for_the_next_frame() {
    let (model, instances) = scene();
    let mut state = ready(640, 480);
    let plan = state.begin_frame(&model, &instances).unwrap();
    state.input(&key(Key::Space, KeyState::Released));
    assert_eq!(plan.pipeline, PipelineVariant::Instanced);
    assert_eq!(state.begin_frame(&model, &instances), None);
    state.end_frame(FrameOutcome::Presented);
    assert_eq!(state.begin_frame(&model, &instances).unwrap().pipeline, PipelineVariant::Basic);
}

#[test]
fn resize_during_a_frame_is_ignored() {
    let (model, instances) = scene();
    let mut state = ready(640, 480);
    state.begin_frame(&model, &instances).unwrap();
    assert_eq!(state.resize(800, 600), ResizeAction::Ignore);
    assert_eq!(state.surface_size(), Extent { width: 640, height: 480 });
}

#[test]
fn lost_surface_must_be_configured_before_the_next_frame() {
    let (model, instances) = scene();
    let mut state = ready(640, 480);
    state.begin_frame(&model, &instances).unwrap();
    assert_eq!(
        state.end_frame(FrameOutcome::Lost),
        FrameAction::Reconfigure(Extent { width: 640, height: 480 })
    );
    assert_eq!(state.phase(), Phase::Resizing);
    assert_eq!(state.begin_frame(&model, &instances), None);
    assert_eq!(
        state.resize(640, 480),
        ResizeAction::Reconfigure(Extent { width: 640, height: 480 })
    );
    assert_eq!(state.phase(), Phase::Ready);
    assert!(state.begin_frame(&model, &instances).is_some());
}

#[test]
fn transient_failures_skip_one_frame() {
    let (model, instances) = scene();
    let mut state = ready(640, 480);
    for outcome in [FrameOutcome::Outdated, FrameOutcome::Timeout] {
        state.begin_frame(&model, &instances).unwrap();
        assert_eq!(state.end_frame(outcome), FrameAction::Skip);
        assert_eq!(state.phase(), Phase::Ready);
    }
}

#[test]
fn out_of_memory_ends_all_gpu_work() {
    let (model, instances) = scene();
    let mut state = ready(640, 480);
    state.begin_frame(&model, &instances).unwrap();
    assert_eq!(state.end_frame(FrameOutcome::OutOfMemory), FrameAction::Exit);
    assert_eq!(state.phase(), Phase::Terminated);
    assert_eq!(state.begin_frame(&model, &instances), None);
    assert_eq!(state.resize(800, 600), ResizeAction::Ignore);
}

#[test]
fn input_takes_only_the_toggle_key() {
    let mut state = ready(640, 480);
    assert!(!state.input(&key(Key::W, KeyState::Pressed)));
    assert!(!state.input(&WindowEvent::Resized { width: 1, height: 1 }));
    assert_eq!(state.active_pipeline(), PipelineVariant::Instanced);
    assert!(state.input(&key(Key::Space, KeyState::Released)));
    assert_eq!(state.active_pipeline(), PipelineVariant::Basic);
    assert!(state.input(&key(Key::Space, KeyState::Pressed)));
    assert_eq!(state.active_pipeline(), PipelineVariant::Instanced);
}

#[test]
fn window_events_resize_or_exit() {
    let mut state = ready(640, 480);
    assert_eq!(
        state.window_event(&WindowEvent::Resized { width: 1024, height: 768 }),
        EventAction::Reconfigure(Extent { width: 1024, height: 768 })
    );
    assert_eq!(
        state.window_event(&WindowEvent::ScaleFactorChanged { width: 2048, height: 1536 }),
        EventAction::Reconfigure(Extent { width: 2048, height: 1536 })
    );
    assert_eq!(state.window_event(&WindowEvent::Resized { width: 0, height: 0 }), EventAction::Ignore);
    assert_eq!(state.surface_size(), Extent { width: 2048, height: 1536 });
    assert_eq!(state.window_event(&key(Key::Escape, KeyState::Released)), EventAction::Ignore);
    assert_eq!(state.window_event(&WindowEvent::Other), EventAction::Ignore);
    assert_eq!(state.window_event(&key(Key::Escape, KeyState::Pressed)), EventAction::Exit);
    assert_eq!(state.phase(), Phase::Terminated);

    let mut other = ready(640, 480);
    assert_eq!(other.window_event(&WindowEvent::CloseRequested), EventAction::Exit);
    assert_eq!(other.phase(), Phase::Terminated);
}

#[test]
fn surface_format_prefers_srgb() {
    assert_eq!(pick_surface_format(&[false, true, true]), Some(1));
    assert_eq!(pick_surface_format(&[true, false]), Some(0));
    assert_eq!(pick_surface_format(&[false, false, false]), Some(0));
    assert_eq!(pick_surface_format(&[]), None);
}

#[test]
fn instance_grid_runs_row_by_row() {
    let cells = instance_grid(10);
    assert_eq!(cells.len(), 100);
    assert_eq!(cells[0], GridCell { x: 0, z: 0 });
    assert_eq!(cells[9], GridCell { x: 9, z: 0 });
    assert_eq!(cells[23], GridCell { x: 3, z: 2 });
    assert_eq!(cells[99], GridCell { x: 9, z: 9 });
    assert!(instance_grid(0).is_empty());
    assert_eq!(instance_grid(1), vec![GridCell { x: 0, z: 0 }]);
}
