use light_show::bar::Bar;
use light_show::beam::{Beam, BeamMode, BeamRing};
use light_show::color::Color;
use light_show::laser::{Laser, LaserColor, LaserPattern, LaserStroke};
use light_show::par::Par;
use light_show::show::ColorMode;
use light_show::spider::Spider;
use light_show::strobe::Strobe;
use light_show::units::FULL;

#[test]
fn par_encodes_red() {
    let p = Par { color: Color::argbw(FULL, FULL, 0, 0, 0) };
    assert_eq!(p.bytes(), vec![0, 0, 0, 255, 255, 0, 0, 0]);
}

#[test]
fn encode_touches_only_its_block() {
    let mut buf = vec![0xAAu8; 40];
    let p = Par { color: Color::rgbw(FULL, FULL, FULL, FULL) };
    p.encode(&mut buf, 10);
    assert_eq!(&buf[..10], &[0xAA; 10]);
    assert_eq!(&buf[10..18], &[0, 0, 0, 255, 255, 255, 255, 255]);
    assert_eq!(&buf[18..], &[0xAA; 22]);

    let mut buf = vec![0xAAu8; 40];
    Beam::default().encode(&mut buf, 3);
    assert_eq!(&buf[..3], &[0xAA; 3]);
    assert_eq!(&buf[18..], &[0xAA; 22]);

    let mut buf = vec![0xAAu8; 12];
    Laser::default().encode(&mut buf, 2);
    assert_eq!(&buf[..2], &[0xAA; 2]);
    assert_eq!(&buf[2..12], &Laser::default().bytes()[..]);
}

#[test]
fn sizes_match_frames() {
    assert_eq!(Par::default().size(), Par::default().bytes().len());
    assert_eq!(Beam::default().size(), 15);
    assert_eq!(Beam::default().bytes().len(), 15);
    assert_eq!(Bar::default().size(), Bar::default().bytes().len());
    assert_eq!(Strobe::default().size(), Strobe::default().bytes().len());
    assert_eq!(Spider::default().size(), Spider::default().bytes().len());
    assert_eq!(Laser::default().size(), Laser::default().bytes().len());
}

#[test]
fn white_overrides_colour_slots() {
    let c = Color::argbw(FULL, FULL, 0, 12345, 32768);
    let b = Bar { color: c }.bytes();
    assert_eq!(&b[0..3], &[127, 127, 127]);
    let s = Strobe { color: c }.bytes();
    assert_eq!(&s[2..5], &[127, 127, 127]);
    let m = Beam { color: c, ..Beam::default() }.bytes();
    assert_eq!(&m[7..11], &[127, 127, 127, 127]);
    let sp = Spider { color0: c, ..Spider::default() }.bytes();
    assert_eq!(&sp[4..12], &[127; 8]);
}

#[test]
fn without_white_slots_follow_rgb() {
    let c = Color::rgb(FULL, 0, 32768);
    assert_eq!(Bar { color: c }.bytes(), vec![255, 0, 127, 0, 0, 0, 255]);
    assert_eq!(Strobe { color: c }.bytes(), vec![255, 0, 255, 0, 127, 0]);
    let sp = Spider { color0: c, pos0: FULL, ..Spider::default() }.bytes();
    assert_eq!(sp, vec![255, 0, 255, 0, 255, 0, 127, 0, 255, 0, 127, 0, 0, 0, 0]);
}

#[test]
fn beam_default_frame() {
    assert_eq!(Beam::default().bytes(), vec![198, 0, 0, 0, 0, 0, 0, 0, 0, 0, 0, 0, 0, 0, 0]);
    let b = Beam {
        mode: BeamMode::ColorCycle,
        pitch: FULL,
        yaw: 0,
        speed: 0,
        color: Color::rgb(0, FULL, 0),
        ring: BeamRing::Teal,
    };
    assert_eq!(b.bytes(), vec![85, 0, 255, 0, 255, 255, 0, 0, 255, 0, 0, 0, 159, 0, 84]);
}

#[test]
fn beam_tables() {
    assert_eq!(BeamMode::Manual.byte(), 0);
    assert_eq!(BeamMode::Auto.byte(), 60);
    assert_eq!(BeamRing::Off.byte(), 0);
    assert_eq!(BeamRing::Blue.byte(), 36);
    assert_eq!(BeamRing::BlueWhite.byte(), 242);
    assert_eq!(BeamRing::Cycle.byte(), 248);
    assert_eq!(BeamRing::Raw(7).byte(), 7);
}

#[test]
fn laser_tables() {
    assert_eq!(LaserPattern::Square.byte(), 0);
    assert_eq!(LaserPattern::Heart.byte(), 122);
    assert_eq!(LaserPattern::Hourglass2.byte(), 210);
    assert_eq!(LaserPattern::Raw(99).byte(), 99);
    assert_eq!(LaserColor::Rgb(true, false, false).byte(), 76);
    assert_eq!(LaserColor::Rgb(true, true, false).byte(), 86);
    assert_eq!(LaserColor::Rgb(false, false, false).byte(), 0);
    assert_eq!(LaserColor::Mix(9).byte(), 20);
    assert_eq!(LaserColor::Mix(6).byte(), 58);
    assert_eq!(LaserColor::Raw(3).byte(), 3);
    assert_eq!(LaserStroke::Solid(FULL).byte(), 0);
    assert_eq!(LaserStroke::Solid(0).byte(), 127);
    assert_eq!(LaserStroke::Dots(0).byte(), 255);
    assert_eq!(LaserStroke::Dots(FULL).byte(), 128);
}

#[test]
fn laser_follows_colour_mode() {
    assert_eq!(LaserColor::from(ColorMode::Red), LaserColor::Rgb(true, false, false));
    assert_eq!(LaserColor::from(ColorMode::Blue).byte(), 116);
    assert_eq!(LaserColor::from(ColorMode::Other).byte(), 64);
}

#[test]
fn laser_frame() {
    assert_eq!(Laser::default().bytes(), vec![0, 0, 0, 0, 0, 0, 0, 0, 64, 0]);
    let l = Laser {
        active: true,
        pattern: LaserPattern::TriWing,
        color: LaserColor::Mix(1),
        stroke: LaserStroke::Dots(FULL),
        rotate: FULL,
        xflip: 0,
        yflip: FULL,
        x: 32768,
        y: 0,
        size: FULL,
    };
    assert_eq!(l.bytes(), vec![64, 218, 127, 127, 0, 63, 0, 63, 10, 128]);
}

#[test]
fn laser_colour_constructors() {
    assert_eq!(LaserColor::red().byte(), 76);
    assert_eq!(LaserColor::green().byte(), 98);
    assert_eq!(LaserColor::blue().byte(), 116);
    assert_eq!(LaserColor::rgb().byte(), 64);
}
