use sonic_flow::blending::{get_blend_state, BlendComponent, BlendFactor, BlendOperation, BlendState};
use sonic_flow::shader_types::BlendMode;

fn comp(src: BlendFactor, dst: BlendFactor) -> BlendComponent {
    BlendComponent { src_factor: src, dst_factor: dst, operation: BlendOperation::Add }
}

#[test]
fn test_blend_state_creation() {
    let blend_state = get_blend_state(BlendMode::Normal);
    let replace = comp(BlendFactor::One, BlendFactor::Zero);
    assert!(matches!(blend_state, BlendState { color, alpha } if color == replace && alpha == replace));
}

#[test]
fn additive_and_overlay_add_source_to_destination() {
    let add = comp(BlendFactor::One, BlendFactor::One);
    assert_eq!(get_blend_state(BlendMode::Add), BlendState { color: add, alpha: add });
    assert_eq!(get_blend_state(BlendMode::Overlay), BlendState { color: add, alpha: add });
}

#[test]
fn multiply_and_screen_colour_equations() {
    let add = comp(BlendFactor::One, BlendFactor::One);
    assert_eq!(
        get_blend_state(BlendMode::Multiply),
        BlendState { color: comp(BlendFactor::Dst, BlendFactor::Zero), alpha: add }
    );
    assert_eq!(
        get_blend_state(BlendMode::Screen),
        BlendState { color: comp(BlendFactor::One, BlendFactor::OneMinusSrc), alpha: add }
    );
}
