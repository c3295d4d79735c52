use cosmic_ray::{affect, Error, Ray, RayBoxVec};

#[test]
fn lib_test_bit_reverse() {
    let pattern: u8 = 0b00000001;
    assert_eq!(0b10000000_u8 ^ pattern, 0b10000001);
    assert_eq!(0b11111111_u8 ^ pattern, 0b11111110);
}

#[test]
fn main_test_bit_reverse() {
    let pattern: u8 = 0b00000001;
    assert_eq!(0b10000000_u8 ^ pattern, 0b10000001);
    assert_eq!(0b11111111_u8 ^ pattern, 0b11111110);
}

#[test]
fn lib_test_bytes() -> Result<(), Error> {
    let mut buf: Vec<u8> = vec![0_u8; 12];
    let reference = buf.clone();

    let ray = Ray::new(0);
    affect(&mut buf, &ray)?;
    assert_ne!(&buf, &reference);
    affect(&mut buf, &ray)?;
    assert_eq!(&buf, &reference);
    Ok(())
}

#[test]
fn main_test_bytes() -> Result<(), Error> {
    let mut buf: Vec<u8> = vec![0_u8; 12];
    let reference = buf.clone();

    let ray = Ray::new(0);
    affect(&mut buf, &ray)?;
    assert_ne!(&buf, &reference);
    affect(&mut buf, &ray)?;
    assert_eq!(&buf, &reference);
    Ok(())
}

#[test]
fn lib_test_raybox() -> Result<(), Error> {
    let buf: Vec<u8> = vec![0_u8; 12];
    let reference = buf.clone();

    let mut raybox = RayBoxVec::new(buf);
    assert_eq!(raybox.data(), &reference);

    for ray in [
        Ray::with_pattern(0, Ray::P0BIT),
        Ray::with_pattern(2, Ray::P1BIT),
        Ray::with_pattern(4, Ray::P2BIT),
        Ray::with_pattern(5, Ray::P3BIT),
        Ray::with_pattern(6, Ray::P4BIT),
        Ray::with_pattern(7, Ray::P5BIT),
        Ray::with_pattern(10, Ray::P6BIT),
        Ray::with_pattern(11, Ray::P7BIT),
    ] {
        raybox.attack(ray)?;
    }
    while raybox.is_damaged() {
        assert_ne!(raybox.data(), &reference);
        raybox.restore();
    }
    assert_eq!(raybox.data(), &reference);
    let buf = RayBoxVec::into_inner(raybox);
    assert_eq!(&buf, &reference);
    Ok(())
}

#[test]
fn main_test_raybox() -> Result<(), Error> {
    let buf: Vec<u8> = vec![0_u8; 12];
    let reference = buf.clone();

    let mut raybox = RayBoxVec::new(buf);
    assert_eq!(raybox.data(), &reference);

    for ray in [
        Ray::with_pattern(0, Ray::P0BIT),
        Ray::with_pattern(2, Ray::P1BIT),
        Ray::with_pattern(4, Ray::P2BIT),
        Ray::with_pattern(5, Ray::P3BIT),
        Ray::with_pattern(6, Ray::P4BIT),
        Ray::with_pattern(7, Ray::P5BIT),
        Ray::with_pattern(10, Ray::P6BIT),
        Ray::with_pattern(11, Ray::P7BIT),
    ] {
        raybox.attack(ray)?;
    }
    while raybox.is_damaged() {
        assert_ne!(raybox.data(), &reference);
        raybox.restore();
    }
    assert_eq!(raybox.data(), &reference);
    let buf = RayBoxVec::into_inner(raybox);
    assert_eq!(&buf, &reference);
    Ok(())
}

#[test]
fn involution_on_one_byte() {
    let mut buf: Vec<u8> = vec![0b1010_1010];
    let ray = Ray::with_pattern(0, 0b0110_0110);
    let first = affect(&mut buf, &ray).unwrap();
    assert_eq!(first, 0b1100_1100);
    assert_eq!(buf[0], 0b1100_1100);
    let second = affect(&mut buf, &ray).unwrap();
    assert_eq!(second, 0b1010_1010);
    assert_eq!(buf[0], 0b1010_1010);
}

#[test]
fn scenario_three_bits_set_then_cleared() {
    let buf: Vec<u8> = vec![0_u8; 12];
    let mut raybox = RayBoxVec::new(buf);
    raybox.attack(Ray::with_pattern(0, 0b00000001)).unwrap();
    raybox.attack(Ray::with_pattern(2, 0b00000010)).unwrap();
    raybox.attack(Ray::with_pattern(4, 0b00000100)).unwrap();

    let expected: Vec<u8> = vec![1, 0, 2, 0, 4, 0, 0, 0, 0, 0, 0, 0];
    assert_eq!(raybox.data(), &expected);

    raybox.restore_all();
    assert!(!raybox.is_damaged());
    assert_eq!(raybox.data(), &vec![0_u8; 12]);
}

#[test]
fn scenario_attack_one_past_end() {
    let buf: Vec<u8> = vec![7_u8; 12];
    let mut raybox = RayBoxVec::new(buf);
    let r = raybox.attack(Ray::new(12));
    assert!(matches!(r, Err(Error::OutOfRange)));
    assert!(!raybox.is_damaged());
    assert_eq!(raybox.data(), &vec![7_u8; 12]);
}

#[test]
fn out_of_range_rejected_far_past_end() {
    let buf: Vec<u8> = vec![1, 2, 3];
    let mut raybox = RayBoxVec::new(buf);
    let r = raybox.attack(Ray::with_pattern(100, 0xFF));
    assert!(matches!(r, Err(Error::OutOfRange)));
    assert!(!raybox.is_damaged());
    assert_eq!(raybox.data(), &vec![1, 2, 3]);
}

#[test]
fn restores_come_back_in_reverse_order() {
    let buf: Vec<u8> = vec![0_u8; 8];
    let mut raybox = RayBoxVec::new(buf);
    let rays: [Ray; 3] = [
        Ray::with_pattern(1, 0b00000001),
        Ray::with_pattern(3, 0b00001000),
        Ray::with_pattern(5, 0b10000000),
    ];
    for ray in rays {
        raybox.attack(ray).unwrap();
    }
    assert_eq!(raybox.restore(), Some(rays[2]));
    assert_eq!(raybox.restore(), Some(rays[1]));
    assert_eq!(raybox.restore(), Some(rays[0]));
    assert!(!raybox.is_damaged());
    assert_eq!(raybox.restore(), None);
}

#[test]
fn idle_restore_is_a_no_op() {
    let buf: Vec<u8> = vec![9, 8, 7];
    let mut raybox = RayBoxVec::new(buf);
    assert_eq!(raybox.restore(), None);
    raybox.restore_all();
    assert!(!raybox.is_damaged());
    assert_eq!(raybox.data(), &vec![9, 8, 7]);
}

#[test]
fn round_trip_with_repeats_and_failures() {
    let buf: Vec<u8> = vec![0xDE, 0xAD, 0xBE, 0xEF, 0x00];
    let reference = buf.clone();
    let mut raybox = RayBoxVec::new(buf);
    let rays: [Ray; 6] = [
        Ray::with_pattern(0, 0xFF),
        Ray::with_pattern(0, 0x0F),
        Ray::with_pattern(4, 0x01),
        Ray::with_pattern(9, 0x01),
        Ray::with_pattern(2, 0xAA),
        Ray::with_pattern(0, 0xFF),
    ];
    for ray in rays {
        // out-of-range attacks fail softly and are not recorded
        let _ = raybox.attack(ray);
    }
    raybox.restore_all();
    assert!(!raybox.is_damaged());
    assert_eq!(raybox.data(), &reference);
}

#[test]
fn into_inner_keeps_corruption() {
    let buf: Vec<u8> = vec![0_u8; 4];
    let mut raybox = RayBoxVec::new(buf);
    raybox.attack(Ray::with_pattern(1, 0xFF)).unwrap();
    assert!(raybox.is_damaged());
    let bytes = RayBoxVec::into_inner(raybox);
    assert_eq!(bytes, vec![0, 0xFF, 0, 0]);
}

#[test]
fn error_messages() {
    assert_eq!(Error::OutOfRange.message(), "ray position is out of range");
    assert_eq!(Error::IO.message(), "io error");
}
