use shoyu::canvas::Canvas;
use shoyu::canvas::CanvasAttachment;
use shoyu::canvas::MadeAttachment;
use shoyu::canvas::StaticCanvasProfile;
use shoyu::frame::FrameSubmitter;
use shoyu::geometry::Rect2D;
use shoyu::geometry::Scalar;
use shoyu::gpu::Attachment;
use shoyu::gpu::FRect2D;
use shoyu::gpu::Format;
use shoyu::gpu::LoadOp;
use shoyu::gpu::SampleCount;
use shoyu::gpu::StoreOp;
use shoyu::gpu::Viewport;
use shoyu::hotbuffer::HotBuffer;
use shoyu::pool::Handle;

#[test]
fn the_slots_are_used_in_a_ring() {
    let mut frames = FrameSubmitter::new(3);
    let mut seen = Vec::new();
    for _ in 0..7 {
        seen.push(frames.current_slot());
        frames.submit();
    }
    assert_eq!(seen, vec![0, 1, 2, 0, 1, 2, 0]);
    let mut single = FrameSubmitter::new(1);
    single.submit();
    assert_eq!(single.current_slot(), 0);
}

fn attachment(view: u32, load_op: LoadOp) -> Attachment {
    Attachment {
        view: Handle::new(view, 0),
        samples: SampleCount::S1,
        load_op,
        store_op: StoreOp::Store,
        stencil_load_op: LoadOp::DontCare,
        stencil_store_op: StoreOp::DontCare,
        clear_color: [Scalar { bits: 0 }; 4],
    }
}

#[test]
fn what_was_made_for_the_attachments_is_split_in_order() {
    let made = vec![
        MadeAttachment {
            image: Handle::new(1, 0),
            view: Handle::new(11, 0),
            attachment: attachment(11, LoadOp::Clear),
        },
        MadeAttachment {
            image: Handle::new(2, 5),
            view: Handle::new(12, 0),
            attachment: attachment(12, LoadOp::Load),
        },
    ];
    let (images, views, attachments) = Canvas::split(&made);
    assert_eq!(images, vec![Handle::new(1, 0), Handle::new(2, 5)]);
    assert_eq!(views, vec![Handle::new(11, 0), Handle::new(12, 0)]);
    assert_eq!(attachments, vec![attachment(11, LoadOp::Clear), attachment(12, LoadOp::Load)]);
    let (images, views, attachments) = Canvas::split(&vec![]);
    assert!(images.is_empty() && views.is_empty() && attachments.is_empty());
}

fn viewport() -> Viewport {
    Viewport {
        area: FRect2D {
            x: Scalar { bits: 0 },
            y: Scalar { bits: 0 },
            w: Scalar { bits: 1024.0f32.to_bits() },
            h: Scalar { bits: 768.0f32.to_bits() },
        },
        scissor: Rect2D { x: 0, y: 0, w: 1024, h: 768 },
        min_depth: Scalar { bits: 0 },
        max_depth: Scalar { bits: 1.0f32.to_bits() },
    }
}

#[test]
fn a_canvas_hands_out_what_it_was_made_with() {
    let canvas = Canvas::new(
        "STATIC".to_string(),
        viewport(),
        vec![Handle::new(1, 0), Handle::new(2, 0)],
        vec![Handle::new(3, 0), Handle::new(4, 0)],
        Some(Handle::new(5, 0)),
        Handle::new(6, 0),
    );
    assert_eq!(canvas.name(), "STATIC");
    assert_eq!(canvas.viewport(), viewport());
    assert_eq!(canvas.render_pass(), Handle::new(6, 0));
    assert_eq!(canvas.color_attachment_count(), 2);
    assert_eq!(canvas.color_attachment(0), Handle::new(3, 0));
    assert_eq!(canvas.color_attachment(1), Handle::new(4, 0));
}

#[test]
fn the_simple_profile_has_a_color_and_a_depth_image() {
    let (colors, depth) = Canvas::static_images(StaticCanvasProfile::SIMPLE);
    assert_eq!(colors.len(), 1);
    assert_eq!(colors[0].name, "color_attachment");
    assert_eq!(colors[0].format, Format::RGBA8);
    assert_eq!(depth.name, "Depth Image");
    assert_eq!(depth.format, Format::D24S8);
}

#[test]
fn an_attachment_takes_its_operations_from_the_configuration() {
    let config = CanvasAttachment {
        name: "color".to_string(),
        format: Format::RGBA8,
        samples: SampleCount::S2,
        load_op: LoadOp::Clear,
        store_op: StoreOp::DontCare,
        stencil_load_op: LoadOp::Load,
        stencil_store_op: StoreOp::Store,
        clear_color: [Scalar { bits: 1 }, Scalar { bits: 2 }, Scalar { bits: 3 }, Scalar { bits: 4 }],
    };
    let made = Canvas::attachment(&config, Handle::new(9, 1));
    assert_eq!(made.view, Handle::new(9, 1));
    assert_eq!(made.samples, SampleCount::S2);
    assert_eq!(made.load_op, LoadOp::Clear);
    assert_eq!(made.store_op, StoreOp::DontCare);
    assert_eq!(made.stencil_load_op, LoadOp::Load);
    assert_eq!(made.stencil_store_op, StoreOp::Store);
    assert_eq!(made.clear_color[3], Scalar { bits: 4 });
}

#[test]
fn a_hot_buffer_copies_between_its_two_buffers() {
    let buffer = HotBuffer::new(Handle::new(1, 0), Handle::new(2, 0), 100);
    assert_eq!(buffer.raw(), Handle::new(1, 0));
    let down = buffer.sync_down();
    assert_eq!((down.src, down.dst), (Handle::new(1, 0), Handle::new(2, 0)));
    assert_eq!((down.src_offset, down.dst_offset, down.size), (0, 0, 100));
    let up = buffer.sync_up();
    assert_eq!((up.src, up.dst), (Handle::new(2, 0), Handle::new(1, 0)));
    assert_eq!(up.size, 100);
    assert_eq!(buffer.slice_len(16), 6);
    assert_eq!(buffer.slice_len(101), 0);
    assert_eq!(HotBuffer::staging_name("Particles"), "HOTBUFFER: Particles Staging");
}

#[test]
fn the_simple_profile_clears_to_black_and_to_the_far_plane() {
    let (color, depth) =
        Canvas::static_attachments(StaticCanvasProfile::SIMPLE, Handle::new(1, 0), Handle::new(2, 0));
    let zero = Scalar { bits: 0.0f32.to_bits() };
    let one = Scalar { bits: 1.0f32.to_bits() };
    assert_eq!(color.view, Handle::new(1, 0));
    assert_eq!(color.clear_color, [zero, zero, zero, one]);
    assert_eq!(depth.view, Handle::new(2, 0));
    assert_eq!(depth.clear_color, [one, one, one, one]);
    for attachment in [color, depth] {
        assert_eq!(attachment.samples, SampleCount::S1);
        assert_eq!(attachment.load_op, LoadOp::Clear);
        assert_eq!(attachment.store_op, StoreOp::Store);
        assert_eq!(attachment.stencil_load_op, LoadOp::DontCare);
        assert_eq!(attachment.stencil_store_op, StoreOp::DontCare);
    }
}
