use light_show::color::{Color, PaletteColor};
use light_show::dmx::UNIVERSE_LEN;
use light_show::lights::Lights;
use light_show::units::FULL;

fn alpha_channels() -> Vec<usize> {
    let mut v = Vec::new();
    for i in 0..10 {
        v.push(1 + 8 * i + 3);
    }
    for i in 0..4 {
        v.push(81 + 15 * i + 5);
    }
    v.push(142);
    for i in 0..2 {
        v.push(149 + 7 * i + 6);
    }
    for i in 0..2 {
        v.push(175 + 15 * i + 2);
    }
    v
}

#[test]
fn blackout_zeroes_every_alpha_byte() {
    let red = Color::from(PaletteColor::Red);
    let lit = Lights::default().all(red);
    let mut lit_buf = vec![0u8; UNIVERSE_LEN];
    lit.write(&mut lit_buf);

    let mut dark = Lights::default().all(red);
    dark.brightness(0);
    let mut dark_buf = vec![0u8; UNIVERSE_LEN];
    dark.write(&mut dark_buf);

    let alphas = alpha_channels();
    for p in 0..UNIVERSE_LEN {
        if alphas.contains(&p) {
            assert_eq!(lit_buf[p], 255, "position {}", p);
            assert_eq!(dark_buf[p], 0, "position {}", p);
        } else {
            assert_eq!(dark_buf[p], lit_buf[p], "position {}", p);
        }
    }
    // Red stays on its own channel.
    for i in 0..10 {
        assert_eq!(dark_buf[1 + 8 * i + 4], 255);
    }
    assert_eq!(dark_buf[149 + 2], 0);
    assert_eq!(dark_buf[149], 255);
}

#[test]
fn layout_puts_each_fixture_at_its_address() {
    let mut l = Lights::default();
    l.pars[9].color = Color::w(FULL);
    l.strobe.color = Color::rgb(0, 0, FULL);
    l.laser.active = true;
    l.spiders[1].pos1 = FULL;
    let mut buf = vec![0xEEu8; UNIVERSE_LEN];
    l.write(&mut buf);
    assert_eq!(buf[0], 0xEE);
    assert_eq!(&buf[73..81], &[0, 0, 0, 255, 0, 0, 0, 255]);
    assert_eq!(buf[141], 0xEE);
    assert_eq!(&buf[142..148], &[255, 0, 0, 0, 255, 0]);
    assert_eq!(buf[148], 0xEE);
    assert_eq!(buf[163], 0xEE);
    assert_eq!(buf[164], 64);
    assert_eq!(buf[174], 0xEE);
    assert_eq!(buf[175 + 15 + 1], 255);
    assert_eq!(buf[81], 198);
}

#[test]
fn all_sets_every_main_colour() {
    let c = Color::rgb(1, 2, 3);
    let l = Lights::default().all(c);
    assert!(l.pars.iter().all(|p| p.color == c));
    assert!(l.beams.iter().all(|b| b.color == c));
    assert!(l.bars.iter().all(|b| b.color == c));
    assert!(l.spiders.iter().all(|s| s.color0 == c && s.color1 == c));
    assert_eq!(l.strobe.color, c);
    assert_eq!(l.beams[0].yaw, 43690);
}

#[test]
fn brightness_scales_alpha_only() {
    let mut l = Lights::default().all(Color::rgbw(10, 20, 30, 40));
    l.brightness(32768);
    assert_eq!(l.pars[0].color, Color::argbw(32768, 10, 20, 30, 40));
    assert_eq!(l.spiders[1].color1.a, 32768);
    assert_eq!(l.strobe.color.a, 32768);
    l.brightness(FULL);
    assert_eq!(l.bars[1].color.a, 32768);
}
