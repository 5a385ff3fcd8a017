use chaos_game_3d::half_multivector::{
    get_component_table, get_product_parity, get_sign_table, Parity, P, PN, SCALAR, X, XY, XYZ,
    XYZPN, Y, YZ, Z,
};

/// The geometric product of two dense half multivectors, computed from the
/// lookup tables.
fn product(left: &[f64; 16], lp: Parity, right: &[f64; 16], rp: Parity) -> ([f64; 16], Parity) {
    let components = get_component_table(&lp, &rp);
    let signs = get_sign_table(&lp, &rp);
    let mut result = [0.0; 16];
    for i in 0..16 {
        for j in 0..16 {
            result[components[i][j]] += signs[i][j] as f64 * left[i] * right[j];
        }
    }
    (result, get_product_parity(&lp, &rp))
}

const ONES: [f64; 16] = [1.0; 16];
const COUNTING: [f64; 16] = [
    1.0, 2.0, 3.0, 4.0, 5.0, 6.0, 7.0, 8.0, 9.0, 10.0, 11.0, 12.0, 13.0, 14.0, 15.0, 16.0,
];

#[test]
fn test_product_even_even() {
    let expected = [
        -14.0, 30.0, 30.0, 26.0, 30.0, 30.0, 26.0, 30.0, -22.0, -14.0, 30.0, 26.0, 26.0, 30.0,
        30.0, -22.0,
    ];
    let (result, parity) = product(&ONES, Parity::Even, &COUNTING, Parity::Even);
    assert_eq!(result, expected);
    assert_eq!(parity, Parity::Even);
}

#[test]
fn test_product_even_odd() {
    let expected = [
        30.0, 14.0, 26.0, -30.0, -22.0, -14.0, -30.0, 26.0, -30.0, -30.0, 22.0, 30.0, 30.0,
        -26.0, -26.0, 30.0,
    ];
    let (result, parity) = product(&ONES, Parity::Even, &COUNTING, Parity::Odd);
    assert_eq!(result, expected);
    assert_eq!(parity, Parity::Odd);
}

#[test]
fn test_product_odd_odd() {
    let expected = [
        14.0, 30.0, -30.0, 26.0, -30.0, -30.0, 26.0, -30.0, -22.0, -14.0, 30.0, -26.0, -26.0,
        30.0, 30.0, 22.0,
    ];
    let (result, parity) = product(&ONES, Parity::Odd, &COUNTING, Parity::Odd);
    assert_eq!(result, expected);
    assert_eq!(parity, Parity::Even);
}

#[test]
fn test_product_odd_even() {
    let expected = [
        30.0, -14.0, 26.0, 30.0, -22.0, -14.0, 30.0, 26.0, 30.0, 30.0, -22.0, 30.0, 30.0, 26.0,
        26.0, 30.0,
    ];
    let (result, parity) = product(&ONES, Parity::Odd, &COUNTING, Parity::Even);
    assert_eq!(result, expected);
    assert_eq!(parity, Parity::Odd);
}

#[test]
fn product_parity_is_even_for_equal_parities() {
    assert_eq!(get_product_parity(&Parity::Even, &Parity::Even), Parity::Even);
    assert_eq!(get_product_parity(&Parity::Odd, &Parity::Odd), Parity::Even);
    assert_eq!(get_product_parity(&Parity::Even, &Parity::Odd), Parity::Odd);
    assert_eq!(get_product_parity(&Parity::Odd, &Parity::Even), Parity::Odd);
}

#[test]
fn basis_vectors_square_to_metric() {
    // x * x = 1, p * p = 1 and n * n = -1 in Cl(4, 1)
    let components = get_component_table(&Parity::Odd, &Parity::Odd);
    let signs = get_sign_table(&Parity::Odd, &Parity::Odd);
    assert_eq!(components[X][X], SCALAR);
    assert_eq!(signs[X][X], 1);
    assert_eq!(components[P][P], SCALAR);
    assert_eq!(signs[P][P], 1);
    assert_eq!(components[chaos_game_3d::half_multivector::N][chaos_game_3d::half_multivector::N], SCALAR);
    assert_eq!(signs[chaos_game_3d::half_multivector::N][chaos_game_3d::half_multivector::N], -1);
}

#[test]
fn vectors_anticommute() {
    // x * y = xy and y * x = -xy
    let components = get_component_table(&Parity::Odd, &Parity::Odd);
    let signs = get_sign_table(&Parity::Odd, &Parity::Odd);
    assert_eq!(components[X][Y], XY);
    assert_eq!(components[Y][X], XY);
    assert_eq!(signs[X][Y], 1);
    assert_eq!(signs[Y][X], -1);
}

#[test]
fn bivector_squares_to_minus_one() {
    let components = get_component_table(&Parity::Even, &Parity::Even);
    let signs = get_sign_table(&Parity::Even, &Parity::Even);
    assert_eq!(components[XY][XY], SCALAR);
    assert_eq!(signs[XY][XY], -1);
    // pn * pn = +1 since n squares to -1
    assert_eq!(components[PN][PN], SCALAR);
    assert_eq!(signs[PN][PN], 1);
}

#[test]
fn even_times_odd_blades() {
    // yz * x = xyz (moving x past two vectors)
    let components = get_component_table(&Parity::Even, &Parity::Odd);
    let signs = get_sign_table(&Parity::Even, &Parity::Odd);
    assert_eq!(components[YZ][X], XYZ);
    assert_eq!(signs[YZ][X], 1);
    // the scalar times the pseudoscalar is the pseudoscalar
    assert_eq!(components[SCALAR][XYZPN], XYZPN);
    assert_eq!(signs[SCALAR][XYZPN], 1);
    let components = get_component_table(&Parity::Odd, &Parity::Even);
    assert_eq!(components[Z][SCALAR], Z);
}

/// The conformal point of (x, y, z): x + (|x|^2 + 1) / 2 n + (|x|^2 - 1) / 2 p
fn conformal_point(x: f64, y: f64, z: f64) -> [f64; 16] {
    let mag_sqr = x * x + y * y + z * z;
    let mut point = [0.0; 16];
    point[X] = x;
    point[Y] = y;
    point[Z] = z;
    point[P] = 0.5 * (mag_sqr - 1.0);
    point[chaos_game_3d::half_multivector::N] = 0.5 * (mag_sqr + 1.0);
    point
}

/// The reverse of an even versor: the bivectors change sign
fn reverse_even(versor: &[f64; 16]) -> [f64; 16] {
    let mut reversed = *versor;
    for component in reversed.iter_mut().skip(6) {
        *component = -*component;
    }
    reversed
}

/// Apply an even versor to a point with the sandwich product V x ~V, and
/// return the Euclidean coordinates of the result.
fn sandwich(versor: &[f64; 16], point: &[f64; 16]) -> [f64; 3] {
    let (left, parity) = product(versor, Parity::Even, point, Parity::Odd);
    let (result, parity) = product(&left, parity, &reverse_even(versor), Parity::Even);
    assert_eq!(parity, Parity::Odd);
    let weight = result[chaos_game_3d::half_multivector::N] - result[P];
    [result[X] / weight, result[Y] / weight, result[Z] / weight]
}

fn assert_close(actual: [f64; 3], expected: [f64; 3]) {
    for i in 0..3 {
        assert!((actual[i] - expected[i]).abs() < 1e-9, "{:?} != {:?}", actual, expected);
    }
}

#[test]
fn sandwich_with_translation_moves_points() {
    // 1 - (x (n + p) + y (n + p) + z (n + p)) / 2 for the offset (1, 2, 3)
    let mut versor = [0.0; 16];
    versor[SCALAR] = 1.0;
    for (plus, minus, offset) in [(8, 9, 1.0), (11, 12, 2.0), (13, 14, 3.0)] {
        versor[plus] = -0.5 * offset;
        versor[minus] = -0.5 * offset;
    }
    assert_close(sandwich(&versor, &conformal_point(1.0, 1.0, 1.0)), [2.0, 3.0, 4.0]);
}

#[test]
fn sandwich_with_rotation_turns_points() {
    // a quarter turn counterclockwise around the z axis: cos(-pi/4) + sin(-pi/4) xy
    let half_angle = -0.25 * std::f64::consts::PI;
    let mut versor = [0.0; 16];
    versor[SCALAR] = half_angle.cos();
    versor[XY] = half_angle.sin();
    assert_close(sandwich(&versor, &conformal_point(1.0, 0.0, 0.0)), [0.0, 1.0, 0.0]);
    assert_close(sandwich(&versor, &conformal_point(0.0, 1.0, 0.0)), [-1.0, 0.0, 0.0]);
}

#[test]
fn sandwich_with_rotation_cycles_axes() {
    // 120 degrees around x + y + z cycles x -> y -> z -> x
    let mut versor = [0.0; 16];
    versor[SCALAR] = 0.5;
    versor[XY] = -0.5;
    versor[7] = 0.5; // xz
    versor[YZ] = -0.5;
    assert_close(sandwich(&versor, &conformal_point(1.0, 0.0, 0.0)), [0.0, 1.0, 0.0]);
    assert_close(sandwich(&versor, &conformal_point(0.0, 1.0, 0.0)), [0.0, 0.0, 1.0]);
    assert_close(sandwich(&versor, &conformal_point(0.0, 0.0, 1.0)), [1.0, 0.0, 0.0]);
    assert_close(sandwich(&versor, &conformal_point(0.0, 0.0, 0.0)), [0.0, 0.0, 0.0]);
}

#[test]
fn sandwich_with_dilation_scales_points() {
    // cosh(ln(2) / 2) - sinh(ln(2) / 2) pn doubles distances from the origin
    let half_log_scale = 2.0f64.ln() / 2.0;
    let mut versor = [0.0; 16];
    versor[SCALAR] = half_log_scale.cosh();
    versor[PN] = -half_log_scale.sinh();
    assert_close(sandwich(&versor, &conformal_point(1.0, 1.0, 1.0)), [2.0, 2.0, 2.0]);
}

#[test]
fn blade_products_associate() {
    let parities = [Parity::Even, Parity::Odd];
    for &a in &parities {
        for &b in &parities {
            for &c in &parities {
                let ab = get_product_parity(&a, &b);
                let bc = get_product_parity(&b, &c);
                assert_eq!(get_product_parity(&ab, &c), get_product_parity(&a, &bc));
                let (c_ab, s_ab) = (get_component_table(&a, &b), get_sign_table(&a, &b));
                let (c_ab_c, s_ab_c) = (get_component_table(&ab, &c), get_sign_table(&ab, &c));
                let (c_bc, s_bc) = (get_component_table(&b, &c), get_sign_table(&b, &c));
                let (c_a_bc, s_a_bc) = (get_component_table(&a, &bc), get_sign_table(&a, &bc));
                for i in 0..16 {
                    for j in 0..16 {
                        for k in 0..16 {
                            let ij = c_ab[i][j];
                            let jk = c_bc[j][k];
                            assert_eq!(c_ab_c[ij][k], c_a_bc[i][jk]);
                            assert_eq!(s_ab[i][j] * s_ab_c[ij][k], s_bc[j][k] * s_a_bc[i][jk]);
                        }
                    }
                }
            }
        }
    }
}
