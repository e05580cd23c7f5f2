use gbcore::util::{RegisterPair, Twiddling};

#[test]
fn calc() {
    let opcode: u8 = 0xA3;
    let [left, right] = opcode.msb_and_lsb();
    assert_eq!(left, 0xA);
    assert_eq!(right, 0x3);
}

#[test]
fn util_reg_as_both() {
    let pair = RegisterPair { hi: 0x44, lo: 0x22 };
    assert_eq!(pair.as_both(), 0x4422);
}

#[test]
fn util_reg_set() {
    let mut pair = RegisterPair { hi: 0xA, lo: 0xB };
    pair.set_both(0xCCDC);
    assert_eq!(pair.hi, 0xCC);
    assert_eq!(pair.lo, 0xDC);
}

#[test]
fn swap_nib() {
    let mut x: u8 = 0b1010_1110;
    x.swap_nibbles();
    assert_eq!(x, 0b1110_1010);
}

#[test]
fn dec_me_pls() {
    let mut reg_pair = RegisterPair::default();
    reg_pair.set_both(932_u16);
    reg_pair.dec();
    assert_eq!(reg_pair.as_both(), 931);
}

#[test]
fn cpu_old_reg_as_both() {
    let pair = RegisterPair { hi: 0x44, lo: 0x22 };
    assert_eq!(pair.as_both(), 0x4422);
}

#[test]
fn cpu_old_reg_set() {
    let mut pair = RegisterPair { hi: 0xA, lo: 0xB };
    pair.set_both(0xCCDC);
    assert_eq!(pair.hi, 0xCC);
    assert_eq!(pair.lo, 0xDC);
}

#[test]
#[allow(clippy::bool_assert_comparison)]
fn cpu_old_set_get() {
    let mut f_reg: u8 = 0b1101_0000;

    assert_eq!(f_reg.get_bit(0), false);
    assert_eq!(f_reg.get_bit(1), false);
    assert_eq!(f_reg.get_bit(2), false);
    assert_eq!(f_reg.get_bit(3), false);
    assert_eq!(f_reg.get_bit(4), true);
    assert_eq!(f_reg.get_bit(5), false);
    assert_eq!(f_reg.get_bit(6), true);
    assert_eq!(f_reg.get_bit(7), true);

    f_reg.set_bit(4, false);
    f_reg.set_bit(5, true);

    assert_eq!(f_reg.get_bit(4), false);
    assert_eq!(f_reg.get_bit(5), true);
}

#[test]
#[allow(clippy::bool_assert_comparison)]
fn cpu_set_get() {
    let mut f_reg: u8 = 0b1101_0000;

    assert_eq!(f_reg.get_bit(0), false);
    assert_eq!(f_reg.get_bit(1), false);
    assert_eq!(f_reg.get_bit(2), false);
    assert_eq!(f_reg.get_bit(3), false);
    assert_eq!(f_reg.get_bit(4), true);
    assert_eq!(f_reg.get_bit(5), false);
    assert_eq!(f_reg.get_bit(6), true);
    assert_eq!(f_reg.get_bit(7), true);

    f_reg.set_bit(4, false);
    f_reg.set_bit(5, true);

    assert_eq!(f_reg.get_bit(4), false);
    assert_eq!(f_reg.get_bit(5), true);
}

#[test]
fn read_as_i16() {
    let signed = (-19_i8) as u16;
    println!("{}", 54_u16.wrapping_add(signed));
}

#[test]
fn u8_overflow() {
    let n1 = 220_u8;
    let n2 = 50_u8;
    println!("{}", n1.wrapping_add(n2));
}

#[test]
fn shifting() {
    let n = 0b1001_0111_u8;
    println!("{:08b}", n.rotate_right(1));
    println!("{:08b}", n >> 1);
}

#[test]
fn add_consuming() {
    let mut x: u8 = 0xFF;
    x = x.wrapping_add(1);
    println!("{}", x);

    assert_eq!(x, 0);
}

#[test]
fn set_bit_keeps_other_bits() {
    for n in 0..8u8 {
        for val in [false, true] {
            let before: u8 = 0b0110_1001;
            let mut after = before;
            after.set_bit(n, val);
            assert_eq!(after.get_bit(n), val);
            for i in 0..8u8 {
                if i != n {
                    assert_eq!(after.get_bit(i), before.get_bit(i));
                }
            }
        }
    }
}

#[test]
fn swap_nibbles_is_self_inverse() {
    for b in 0..=255u8 {
        let mut x = b;
        x.swap_nibbles();
        x.swap_nibbles();
        assert_eq!(x, b);
    }
}

#[test]
fn pair_round_trip_all_shapes() {
    for &v in &[0u16, 1, 0x00FF, 0x0100, 0xABCD, 0xFFFF] {
        let mut pair = RegisterPair::default();
        pair.set_both(v);
        assert_eq!(pair.as_both(), v);
    }
}

#[test]
fn pair_inc_wraps() {
    let mut pair = RegisterPair { hi: 0xFF, lo: 0xFF };
    pair.inc();
    assert_eq!(pair.as_both(), 0);
    pair.dec();
    assert_eq!(pair.as_both(), 0xFFFF);
}

#[test]
fn pair_add_wraps() {
    let mut pair = RegisterPair { hi: 0xFF, lo: 0xFE };
    pair.add_both(5);
    assert_eq!(pair.as_both(), 3);
}
