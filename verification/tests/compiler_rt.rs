use ws63_rf::compiler_rt::{__ws63_udivdi3, __ws63_umoddi3};

#[test]
fn bridges_unsigned_64_bit_arithmetic() {
    assert_eq!(__ws63_udivdi3(10_001, 100), 100);
    assert_eq!(__ws63_umoddi3(10_001, 100), 1);
}

#[test]
fn division_callbacks_cover_the_full_range() {
    assert_eq!(__ws63_udivdi3(u64::MAX, 1), u64::MAX);
    assert_eq!(__ws63_umoddi3(u64::MAX, 1), 0);
    assert_eq!(__ws63_udivdi3(7, 8), 0);
    assert_eq!(__ws63_umoddi3(7, 8), 7);
    let (a, b) = (0xdead_beef_cafe_f00d_u64, 0x1_0001_u64);
    assert_eq!(__ws63_udivdi3(a, b) * b + __ws63_umoddi3(a, b), a);
}
