use dissolve_2d::AlphaMode2d;
use dissolve_2d::ColorRgba;
use dissolve_2d::Dissolve2DEffect;
use dissolve_2d::Dissolve2DMaterial;
use dissolve_2d::DissolveParams;
use dissolve_2d::DrawableObject;
use dissolve_2d::FlashIn;
use dissolve_2d::FIXED_ONE;
use dissolve_2d::MaterialHandle;
use dissolve_2d::MaterialRegistry;
use dissolve_2d::TextureHandle;
use dissolve_2d::animate_flash_in;
use dissolve_2d::animator::compute_progress;
use dissolve_2d::apply_default_dissolve_texture;
use dissolve_2d::material::default_noise_texture_path;
use dissolve_2d::material::COLOR_SAMPLER_SLOT;
use dissolve_2d::material::COLOR_TEXTURE_SLOT;
use dissolve_2d::material::NOISE_SAMPLER_SLOT;
use dissolve_2d::material::NOISE_TEXTURE_SLOT;
use dissolve_2d::material::PARAMS_UNIFORM_SLOT;

#[test]
fn default_params_values() {
    let p = DissolveParams::default();
    assert_eq!(
        p.burn_color,
        ColorRgba { r: 1_000_000, g: 400_000, b: 0, a: 1_000_000 }
    );
    assert_eq!(p.dissolve_value, 0);
    assert_eq!(p.burn_size, 40_000);
    assert_eq!(p.padding, (0, 0));
}

#[test]
fn default_material_values() {
    let m = Dissolve2DMaterial::default();
    assert_eq!(m.color_texture, Some(TextureHandle { id: 0 }));
    assert_eq!(m.noise_texture, None);
    assert_eq!(m.props, DissolveParams::default());
}

#[test]
fn material_constants() {
    let m = Dissolve2DMaterial::default();
    assert_eq!(Dissolve2DMaterial::fragment_shader(), "shaders/dissolve_2d.wgsl");
    assert_eq!(m.alpha_mode(), AlphaMode2d::Blend);
    assert_eq!(default_noise_texture_path(), "textures/noise.png");
    assert_eq!(COLOR_TEXTURE_SLOT, 0);
    assert_eq!(COLOR_SAMPLER_SLOT, 1);
    assert_eq!(NOISE_TEXTURE_SLOT, 2);
    assert_eq!(NOISE_SAMPLER_SLOT, 3);
    assert_eq!(PARAMS_UNIFORM_SLOT, 4);
}

#[test]
fn uniform_words_packing() {
    let p = DissolveParams {
        burn_color: ColorRgba { r: 11, g: 22, b: 33, a: 44 },
        dissolve_value: 55,
        burn_size: 66,
        padding: (0, 0),
    };
    let w = p.uniform_words();
    assert_eq!(w, vec![11, 22, 33, 44, 55, 66, 0, 0]);
    assert_eq!(w.len() * 4 % 16, 0);
}

#[test]
fn flash_in_new_is_fresh() {
    let f = FlashIn::new(5_000_000);
    assert_eq!(f.duration, 5_000_000);
    assert_eq!(f.elapsed, 0);
}

#[test]
fn registry_insert_and_get() {
    let mut reg = MaterialRegistry::new();
    assert_eq!(reg.len(), 0);
    let mut m1 = Dissolve2DMaterial::default();
    m1.props.burn_size = 123;
    let m2 = Dissolve2DMaterial::default();
    let h1 = reg.insert(m1);
    let h2 = reg.insert(m2);
    assert_eq!(h1.index, 0);
    assert_eq!(h2.index, 1);
    assert_eq!(reg.len(), 2);
    assert_eq!(reg.get(h1).unwrap().props.burn_size, 123);
    assert_eq!(reg.get(h2).unwrap().props.burn_size, 40_000);
    assert!(reg.get(MaterialHandle { index: 2 }).is_none());
}

#[test]
fn write_dissolve_through_handle() {
    let mut reg = MaterialRegistry::new();
    let h = reg.insert(Dissolve2DMaterial::default());
    assert!(reg.write_dissolve(h, 250_000));
    assert_eq!(reg.get(h).unwrap().props.dissolve_value, 250_000);
    assert!(!reg.write_dissolve(MaterialHandle { index: 9 }, 1));
    assert_eq!(reg.get(h).unwrap().props.dissolve_value, 250_000);
}

#[test]
fn one_tick_is_linear() {
    let mut reg = MaterialRegistry::new();
    let h = reg.insert(Dissolve2DMaterial::default());
    let mut objects = vec![DrawableObject { material: h, flash_in: Some(FlashIn::new(10)) }];
    animate_flash_in(&mut objects, &mut reg, 5);
    assert_eq!(reg.get(h).unwrap().props.dissolve_value, 500_000);
    assert_eq!(
        objects[0].flash_in,
        Some(FlashIn { duration: 10, elapsed: 5 })
    );
}

#[test]
fn progress_is_monotonic_and_exact() {
    let mut reg = MaterialRegistry::new();
    let h = reg.insert(Dissolve2DMaterial::default());
    let mut objects = vec![DrawableObject { material: h, flash_in: Some(FlashIn::new(7)) }];
    animate_flash_in(&mut objects, &mut reg, 2);
    let first = reg.get(h).unwrap().props.dissolve_value;
    assert_eq!(first, 285_714);
    animate_flash_in(&mut objects, &mut reg, 2);
    let second = reg.get(h).unwrap().props.dissolve_value;
    assert_eq!(second, 571_428);
    assert!(first < second);
}

#[test]
fn completes_when_ticks_sum_to_duration() {
    let mut reg = MaterialRegistry::new();
    let h = reg.insert(Dissolve2DMaterial::default());
    let mut objects = vec![DrawableObject { material: h, flash_in: Some(FlashIn::new(4)) }];
    for tick in 0..4u64 {
        assert!(objects[0].flash_in.is_some(), "detached early at tick {}", tick);
        animate_flash_in(&mut objects, &mut reg, 1);
    }
    assert_eq!(reg.get(h).unwrap().props.dissolve_value, FIXED_ONE);
    assert_eq!(objects[0].flash_in, None);
}

#[test]
fn zero_duration_completes_immediately() {
    let mut reg = MaterialRegistry::new();
    let h = reg.insert(Dissolve2DMaterial::default());
    let mut objects = vec![DrawableObject { material: h, flash_in: Some(FlashIn::new(0)) }];
    animate_flash_in(&mut objects, &mut reg, 3);
    assert_eq!(reg.get(h).unwrap().props.dissolve_value, FIXED_ONE);
    assert_eq!(objects[0].flash_in, None);
}

#[test]
fn default_texture_pass_is_idempotent() {
    let mut reg = MaterialRegistry::new();
    let mut with_noise = Dissolve2DMaterial::default();
    with_noise.noise_texture = Some(TextureHandle { id: 7 });
    let without_noise = Dissolve2DMaterial::default();
    let h1 = reg.insert(with_noise);
    let h2 = reg.insert(without_noise);
    let shared = TextureHandle { id: 42 };
    apply_default_dissolve_texture(&mut reg, shared);
    assert_eq!(reg.get(h1).unwrap().noise_texture, Some(TextureHandle { id: 7 }));
    assert_eq!(reg.get(h2).unwrap().noise_texture, Some(shared));
    let snapshot1 = *reg.get(h1).unwrap();
    let snapshot2 = *reg.get(h2).unwrap();
    apply_default_dissolve_texture(&mut reg, shared);
    assert_eq!(*reg.get(h1).unwrap(), snapshot1);
    assert_eq!(*reg.get(h2).unwrap(), snapshot2);
}

#[test]
fn shared_handle_objects_observe_same_state() {
    let mut effect = Dissolve2DEffect::new();
    let h = effect.add_material(Dissolve2DMaterial::default());
    let animated = effect.spawn(h, Some(FlashIn::new(8)));
    let passive = effect.spawn(h, None);
    effect.run_frame(2);
    let seen_by_animated = *effect.observed_material(animated).unwrap();
    let seen_by_passive = *effect.observed_material(passive).unwrap();
    assert_eq!(seen_by_animated, seen_by_passive);
    assert_eq!(seen_by_passive.props.dissolve_value, 250_000);
}

#[test]
fn end_to_end_flash_in() {
    let mut effect = Dissolve2DEffect::new();
    let m = Dissolve2DMaterial::new(None, None, DissolveParams::default());
    let h = effect.add_material(m);
    let o = effect.spawn(h, Some(FlashIn::new(5_000_000)));
    effect.startup(TextureHandle { id: 9 });
    for _ in 0..9 {
        effect.run_frame(500_000);
    }
    assert_eq!(
        effect.observed_material(o).unwrap().props.dissolve_value,
        900_000
    );
    assert!(effect.objects[o].flash_in.is_some());
    effect.run_frame(500_000);
    assert_eq!(
        effect.observed_material(o).unwrap().props.dissolve_value,
        FIXED_ONE
    );
    assert_eq!(effect.objects[o].flash_in, None);
    assert_eq!(
        effect.observed_material(o).unwrap().noise_texture,
        Some(TextureHandle { id: 9 })
    );
}

#[test]
fn manual_override_never_leaves_range() {
    let mut p = DissolveParams::default();
    let mut previous: u32 = p.dissolve_value;
    for _ in 0..60 {
        p.add_dissolve_clamped(20_000);
        assert!(p.dissolve_value <= FIXED_ONE);
        assert!(p.dissolve_value >= previous);
        previous = p.dissolve_value;
    }
    assert_eq!(p.dissolve_value, FIXED_ONE);
}

#[test]
fn cancellation_keeps_last_value() {
    let mut effect = Dissolve2DEffect::new();
    let h = effect.add_material(Dissolve2DMaterial::default());
    let o = effect.spawn(h, Some(FlashIn::new(10)));
    effect.run_frame(3);
    assert_eq!(effect.observed_material(o).unwrap().props.dissolve_value, 300_000);
    effect.objects[o].flash_in = None;
    effect.run_frame(3);
    effect.run_frame(3);
    assert_eq!(effect.observed_material(o).unwrap().props.dissolve_value, 300_000);
}

#[test]
fn dead_handle_ticks_without_writing() {
    let mut reg = MaterialRegistry::new();
    let mut objects = vec![DrawableObject {
        material: MaterialHandle { index: 0 },
        flash_in: Some(FlashIn::new(2)),
    }];
    animate_flash_in(&mut objects, &mut reg, 1);
    assert_eq!(reg.len(), 0);
    assert_eq!(objects[0].flash_in, Some(FlashIn { duration: 2, elapsed: 1 }));
    animate_flash_in(&mut objects, &mut reg, 1);
    assert_eq!(reg.len(), 0);
    assert_eq!(objects[0].flash_in, None);
}

#[test]
fn overshooting_tick_completes_and_detaches() {
    let mut reg = MaterialRegistry::new();
    let h = reg.insert(Dissolve2DMaterial::default());
    let mut objects = vec![DrawableObject { material: h, flash_in: Some(FlashIn::new(3)) }];
    animate_flash_in(&mut objects, &mut reg, 5);
    assert_eq!(reg.get(h).unwrap().props.dissolve_value, FIXED_ONE);
    assert_eq!(objects[0].flash_in, None);
}

#[test]
fn progress_values_are_exact() {
    assert_eq!(compute_progress(10, 0), 0);
    assert_eq!(compute_progress(10, 3), 300_000);
    assert_eq!(compute_progress(10, 10), FIXED_ONE);
    assert_eq!(compute_progress(10, 25), FIXED_ONE);
    assert_eq!(compute_progress(0, 1), FIXED_ONE);
    assert_eq!(compute_progress(3, 1), 333_333);
}

#[test]
fn empty_scene_frame_is_a_no_op() {
    let mut effect = Dissolve2DEffect::new();
    effect.run_frame(1_000);
    assert_eq!(effect.objects.len(), 0);
    assert_eq!(effect.registry.len(), 0);
}
