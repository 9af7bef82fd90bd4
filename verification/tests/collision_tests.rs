use space_invaders::collision::circles_overlap;
use space_invaders::entity::GameObj;
use space_invaders::entity::GameObjType;

fn circle(x: i64, y: i64, size: i64) -> GameObj {
    GameObj::new(GameObjType::Shot, x, y, 0, 0, 0, size, 1)
}

#[test]
fn overlap_strict_at_exact_radius_sum() {
    // Distance exactly equal to the radius sum is NOT a collision; one
    // subunit less is.
    let a = circle(0, 0, 7920);
    let b = circle(15840, 0, 7920);
    assert!(!circles_overlap(&a, &b));
    let c = circle(15839, 0, 7920);
    assert!(circles_overlap(&a, &c));
}

#[test]
fn overlap_euclidean_distance() {
    // 3-4-5 triangle: distance 5 against radius sums 5 and 6.
    let a = circle(0, 0, 3);
    let b = circle(3, 4, 2);
    assert!(!circles_overlap(&a, &b));
    let c = circle(3, 4, 3);
    assert!(circles_overlap(&a, &c));
}

#[test]
fn overlap_symmetric_in_argument_order() {
    let pairs = [
        (circle(0, 0, 7920), circle(15839, 0, 7920)),
        (circle(0, 0, 7920), circle(15840, 0, 7920)),
        (circle(-100, 250, 500), circle(300, -100, 80)),
        (circle(5, 5, 3), circle(3, 4, 2)),
    ];
    for (a, b) in pairs.iter() {
        assert_eq!(circles_overlap(a, b), circles_overlap(b, a));
    }
}
