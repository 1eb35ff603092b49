use bgfx::flags::{
    CLEAR_COLOR, CLEAR_DEPTH, STATE_BLEND_ALPHA, STATE_BLEND_EQUATION_SUB, STATE_BLEND_INV_SRC_ALPHA,
    STATE_BLEND_NORMAL, STATE_BLEND_ONE, STATE_BLEND_SRC_ALPHA, STATE_DEFAULT,
};
use bgfx::{
    state_alpha_ref, state_blend_equation, state_blend_equation_separate, state_blend_func,
    state_blend_func_rt_1, state_blend_func_rt_1e, state_blend_func_rt_2, state_blend_func_rt_2e,
    state_blend_func_rt_3, state_blend_func_rt_3e, state_blend_func_rt_x, state_blend_func_rt_xe,
    state_blend_func_separate, state_point_size, texture_border_color, BufferFlags, ClearFlags,
    DebugFlags, ResetFlags, StateFlags, TextureFlags,
};

#[test]
fn alpha_ref_lands_in_its_field() {
    assert_eq!(state_alpha_ref(0x80).bits(), 0x0000_8000_0000_0000);
    assert_eq!(state_alpha_ref(0xff).bits(), 0x0000_ff00_0000_0000);
    assert_eq!(state_alpha_ref(0).bits(), 0);
}

#[test]
fn point_size_lands_in_its_field() {
    assert_eq!(state_point_size(3).bits(), 0x0030_0000_0000_0000);
    assert_eq!(state_point_size(0xff).bits(), 0x0ff0_0000_0000_0000);
}

#[test]
fn blend_func_matches_named_modes() {
    assert_eq!(state_blend_func(0x2000, 0x6000).bits(), STATE_BLEND_NORMAL);
    assert_eq!(
        state_blend_func(STATE_BLEND_SRC_ALPHA as u32, STATE_BLEND_INV_SRC_ALPHA as u32).bits(),
        STATE_BLEND_ALPHA
    );
    assert_eq!(STATE_BLEND_ALPHA, 0x0656_5000);
    assert_eq!(state_blend_func(STATE_BLEND_ONE as u32, 0).bits(), 0x0020_2000);
}

#[test]
fn blend_func_separate_places_four_factors() {
    assert_eq!(state_blend_func_separate(0x5000, 0x6000, 0x01, 0x02).bits(), 0x0006_7100);
}

#[test]
fn blend_equations() {
    assert_eq!(state_blend_equation(STATE_BLEND_EQUATION_SUB as u32).bits(), 0x9000_0000);
    assert_eq!(state_blend_equation_separate(0x2000_0000, 3).bits(), 0x2000_0018);
}

#[test]
fn per_target_blend_bits() {
    assert_eq!(state_blend_func_rt_x(0x5000, 0x6000).bits(), 0x65);
    assert_eq!(state_blend_func_rt_1(0x5000, 0x6000).bits(), 0x65);
    assert_eq!(state_blend_func_rt_2(0x5000, 0x6000).bits(), 0x3_2800);
    assert_eq!(state_blend_func_rt_3(0x5000, 0x6000).bits(), 0x1940_0000);
    assert_eq!(state_blend_func_rt_xe(0x5000, 0x6000, 0x1000_0000).bits(), 0x165);
    assert_eq!(state_blend_func_rt_1e(0x5000, 0x6000, 0x1000_0000).bits(), 0x165);
    assert_eq!(state_blend_func_rt_2e(0x5000, 0x6000, 0x1000_0000).bits(), 0xb_2800);
    assert_eq!(state_blend_func_rt_3e(0x5000, 0x6000, 0x1000_0000).bits(), 0x5940_0000);
}

#[test]
fn border_color_keeps_four_bits() {
    assert_eq!(texture_border_color(5).bits(), 0x0500_0000);
    assert_eq!(texture_border_color(0x17).bits(), 0x0700_0000);
}

#[test]
fn defaults() {
    assert_eq!(StateFlags::default().bits(), STATE_DEFAULT);
    assert_eq!(STATE_DEFAULT, 0x1000_0010_0000_0017);
    assert_eq!(BufferFlags::default().bits(), 0);
    assert_eq!(ClearFlags::default().bits(), 0);
    assert_eq!(DebugFlags::default().bits(), 0);
    assert_eq!(ResetFlags::default().bits(), 0);
    assert_eq!(TextureFlags::default().bits(), 0);
}

#[test]
fn from_bits_refuses_unnamed_bits() {
    assert_eq!(DebugFlags::from_bits(0x10), None);
    assert_eq!(DebugFlags::from_bits(0x9).map(|f| f.bits()), Some(0x9));
    assert_eq!(BufferFlags::from_bits(0x00c0), None);
    assert!(StateFlags::from_bits(u64::MAX).is_some());
}

#[test]
fn union_and_contains() {
    let color = ClearFlags::from_bits(CLEAR_COLOR).unwrap();
    let depth = ClearFlags::from_bits(CLEAR_DEPTH).unwrap();
    let both = color.union(depth);
    assert_eq!(both.bits(), 0x3);
    assert!(both.contains(color));
    assert!(!color.contains(both));
}
