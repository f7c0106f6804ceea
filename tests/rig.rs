use hug_rig::body::{Body, MissingJointError, PlayerBody};
use hug_rig::part::{BodyPart, ForearmLeft, HandLeft, Head, Hip, Spine, UpperArmLeft};
use hug_rig::rest::RestOffset;
use hug_rig::skeleton::{Part, PART_COUNT};

#[derive(Clone, Copy, Debug, PartialEq)]
struct Xf {
    t: [f32; 3],
    r: [f32; 4],
}

const IDENTITY: [f32; 4] = [0.0, 0.0, 0.0, 1.0];

fn quat_mul(a: [f32; 4], b: [f32; 4]) -> [f32; 4] {
    let [ax, ay, az, aw] = a;
    let [bx, by, bz, bw] = b;
    [
        aw * bx + ax * bw + ay * bz - az * by,
        aw * by - ax * bz + ay * bw + az * bx,
        aw * bz + ax * by - ay * bx + az * bw,
        aw * bw - ax * bx - ay * by - az * bz,
    ]
}

fn rotate(q: [f32; 4], v: [f32; 3]) -> [f32; 3] {
    let p = quat_mul(quat_mul(q, [v[0], v[1], v[2], 0.0]), [-q[0], -q[1], -q[2], q[3]]);
    [p[0], p[1], p[2]]
}

fn compose(parent: Xf, child: Xf) -> Xf {
    let moved = rotate(parent.r, child.t);
    Xf {
        t: [parent.t[0] + moved[0], parent.t[1] + moved[1], parent.t[2] + moved[2]],
        r: quat_mul(parent.r, child.r),
    }
}

fn at(t: [f32; 3]) -> Xf {
    Xf { t, r: IDENTITY }
}

fn quarter_turn_about_y() -> [f32; 4] {
    let h = std::f32::consts::FRAC_PI_4;
    [0.0, h.sin(), 0.0, h.cos()]
}

fn rig_with(hip: Xf, spine: Xf) -> Body<Xf> {
    let mut parts = vec![at([0.0, 0.0, 0.0]); PART_COUNT];
    parts[0] = hip;
    parts[1] = spine;
    for i in 2..PART_COUNT {
        parts[i] = at([i as f32 * 0.1, 0.2, -0.05 * i as f32]);
    }
    Body::from_parts(parts).unwrap()
}

#[test]
fn spine_world_translation() {
    let body = rig_with(at([0.0, 1.0, 1.0]), at([0.0, 0.5, 0.0]));
    let world = body.propagated(compose);
    assert_eq!(world.get::<Spine>().t, [0.0, 1.5, 1.0]);
}

#[test]
fn hip_world_is_local() {
    let hip = Xf { t: [0.3, 1.0, -2.0], r: quarter_turn_about_y() };
    let body = rig_with(hip, at([0.0, 0.5, 0.0]));
    let world = body.propagated(compose);
    assert_eq!(*world.get::<Hip>(), hip);
}

#[test]
fn every_edge_is_composed() {
    let hip = Xf { t: [0.3, 1.0, -2.0], r: quarter_turn_about_y() };
    let mut body = rig_with(hip, at([0.0, 0.5, 0.0]));
    body.set::<UpperArmLeft>(Xf { t: [-0.2, 0.0, 0.0], r: quarter_turn_about_y() });
    let world = body.propagated(compose);
    for i in 1..PART_COUNT {
        let c = Part::from_index(i);
        let p = c.parent().unwrap();
        let expected = compose(*world.get_part(p), *body.get_part(c));
        assert_eq!(*world.get_part(c), expected);
    }
}

#[test]
fn rotation_carries_children() {
    let hip = Xf { t: [0.0, 0.0, 0.0], r: quarter_turn_about_y() };
    let body = rig_with(hip, at([1.0, 0.0, 0.0]));
    let world = body.propagated(compose);
    let t = world.get::<Spine>().t;
    assert!(t[0].abs() < 1e-6);
    assert!((t[2] + 1.0).abs() < 1e-6);
}

#[test]
fn propagating_twice_is_identical() {
    let hip = Xf { t: [0.3, 1.0, -2.0], r: quarter_turn_about_y() };
    let body = rig_with(hip, at([0.0, 0.5, 0.0]));
    let first = body.propagated(compose);
    let second = body.propagated(compose);
    for i in 0..PART_COUNT {
        let p = Part::from_index(i);
        let a = first.get_part(p);
        let b = second.get_part(p);
        for k in 0..3 {
            assert_eq!(a.t[k].to_bits(), b.t[k].to_bits());
        }
        for k in 0..4 {
            assert_eq!(a.r[k].to_bits(), b.r[k].to_bits());
        }
    }
}

#[test]
fn missing_part_is_refused() {
    let parts = vec![at([0.0, 0.0, 0.0]); PART_COUNT - 1];
    match Body::from_parts(parts) {
        Err(e) => assert_eq!(e, MissingJointError { found: 16 }),
        Ok(_) => panic!("a body needs every part"),
    }
    assert!(Body::from_parts(vec![0u8; PART_COUNT + 1]).is_err());
    assert!(Body::from_parts(vec![0u8; PART_COUNT]).is_ok());
}

#[test]
fn typed_and_indexed_access_agree() {
    let body = Body::player1();
    assert_eq!(body.get::<HandLeft>(), body.get_part(Part::HandLeft));
    assert_eq!(HandLeft::part(), Part::HandLeft);
    assert_eq!(ForearmLeft::part().parent(), Some(Part::UpperArmLeft));
}

#[test]
fn player_body_stays_propagated() {
    let rest = Body::player1().map(|o: RestOffset| at([o.x as f32, o.y as f32, o.z as f32]));
    let mut pb = PlayerBody::from_relative(rest, compose);
    assert_eq!(pb.absolute.get::<Head>().t, [0.0, 156.0, 0.0]);
    pb.set_relative(Part::Spine, at([0.0, 30.0, 0.0]), compose);
    assert_eq!(pb.relative.get::<Spine>().t, [0.0, 30.0, 0.0]);
    assert_eq!(pb.absolute.get::<Head>().t, [0.0, 161.0, 0.0]);
    let copy = PlayerBody::new(pb.relative.map(|x: Xf| x), pb.absolute.map(|x: Xf| x));
    assert_eq!(copy.absolute.get::<Head>().t, [0.0, 161.0, 0.0]);
}

#[test]
fn get_mut_changes_one_part() {
    let mut body = Body::player1();
    body.get_mut::<Hip>().y = 80;
    assert_eq!(*body.get::<Hip>(), RestOffset { x: 0, y: 80, z: 0 });
    assert_eq!(*body.get::<Spine>(), RestOffset { x: 0, y: 25, z: 0 });
}
