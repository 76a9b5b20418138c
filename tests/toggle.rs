use orbit_toggle::toggle::{swap_material, CurrentMaterial, MaterialPair, Sprite};

const PAIR: MaterialPair = MaterialPair { pixel_art: 0, normal: 1 };

#[test]
fn toggled_flips_both_ways() {
    assert_eq!(CurrentMaterial::PixelArt.toggled(), CurrentMaterial::Normal);
    assert_eq!(CurrentMaterial::Normal.toggled(), CurrentMaterial::PixelArt);
}

#[test]
fn material_for_each_state() {
    let pair = MaterialPair { pixel_art: 7, normal: 3 };
    assert_eq!(pair.material_for(CurrentMaterial::PixelArt), 7);
    assert_eq!(pair.material_for(CurrentMaterial::Normal), 3);
}

#[test]
fn new_sprite_is_bound_to_its_state() {
    let s = Sprite::new(&PAIR, CurrentMaterial::Normal);
    assert_eq!(s.current, CurrentMaterial::Normal);
    assert_eq!(s.material, 1);
}

#[test]
fn press_then_press_again_returns_to_pixel_art() {
    let mut s = Sprite::new(&PAIR, CurrentMaterial::PixelArt);
    assert_eq!(s.material, 0);
    s.on_tick(true, &PAIR);
    assert_eq!(s.current, CurrentMaterial::Normal);
    assert_eq!(s.material, 1);
    s.on_tick(true, &PAIR);
    assert_eq!(s.current, CurrentMaterial::PixelArt);
    assert_eq!(s.material, 0);
}

#[test]
fn n_presses_follow_parity() {
    for n in 0..9usize {
        let mut s = Sprite::new(&PAIR, CurrentMaterial::PixelArt);
        for _ in 0..n {
            s.on_tick(true, &PAIR);
        }
        let expected = if n % 2 == 0 { CurrentMaterial::PixelArt } else { CurrentMaterial::Normal };
        assert_eq!(s.current, expected);
        assert_eq!(s.material, PAIR.material_for(expected));
    }
}

#[test]
fn held_key_toggles_once() {
    // The key goes down on the first tick and stays down for five more:
    // only the first tick reports a press edge.
    let levels = [true, true, true, true, true, true];
    let mut was_down = false;
    let mut s = Sprite::new(&PAIR, CurrentMaterial::PixelArt);
    let mut changes = 0;
    for &down in levels.iter() {
        let before = s;
        s.on_tick(down && !was_down, &PAIR);
        was_down = down;
        if s != before {
            changes += 1;
        }
    }
    assert_eq!(changes, 1);
    assert_eq!(s.current, CurrentMaterial::Normal);
    assert_eq!(s.material, 1);
}

#[test]
fn no_edge_leaves_sprite_alone() {
    let mut s = Sprite::new(&PAIR, CurrentMaterial::Normal);
    for _ in 0..4 {
        s.on_tick(false, &PAIR);
    }
    assert_eq!(s, Sprite { current: CurrentMaterial::Normal, material: 1 });
}

#[test]
fn swap_material_updates_every_sprite() {
    let mut sprites = vec![
        Sprite::new(&PAIR, CurrentMaterial::PixelArt),
        Sprite::new(&PAIR, CurrentMaterial::Normal),
        Sprite::new(&PAIR, CurrentMaterial::PixelArt),
    ];
    swap_material(&mut sprites, true, &PAIR);
    assert_eq!(
        sprites,
        vec![
            Sprite { current: CurrentMaterial::Normal, material: 1 },
            Sprite { current: CurrentMaterial::PixelArt, material: 0 },
            Sprite { current: CurrentMaterial::Normal, material: 1 },
        ]
    );
    swap_material(&mut sprites, false, &PAIR);
    assert_eq!(sprites[1], Sprite { current: CurrentMaterial::PixelArt, material: 0 });
    assert_eq!(sprites.len(), 3);
}

#[test]
fn swap_material_on_no_sprites() {
    let mut sprites: Vec<Sprite> = Vec::new();
    swap_material(&mut sprites, true, &PAIR);
    assert!(sprites.is_empty());
}
