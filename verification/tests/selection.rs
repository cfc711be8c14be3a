use nacos_client::errors::ClientError;
use nacos_client::instance::Instance;
use nacos_client::naming_service::select_by_draw;
use nacos_client::rng::SelectionRng;

fn weighted(ip: &str, weight: u64) -> Instance {
    let mut i = Instance::new(
        ip.to_string(),
        80,
        "foo".to_string(),
        "DEFAULT_GROUP".to_string(),
    );
    i.weight = weight;
    i
}

#[test]
fn weights_one_and_three_split_draws_about_one_to_three() {
    let hosts = vec![weighted("a", 1), weighted("b", 3)];
    let mut rng = SelectionRng::new(12345);
    let rounds = 20_000;
    let mut second: u32 = 0;
    for _ in 0..rounds {
        let draw = rng.next_below(1 << 64);
        let picked = select_by_draw(&hosts, draw).unwrap();
        if picked.ip == "b" {
            second += 1;
        }
    }
    let share = f64::from(second) / f64::from(rounds);
    assert!(share > 0.72 && share < 0.78, "second instance share was {share}");
}

#[test]
fn zero_weight_instances_are_never_selected() {
    let hosts = vec![weighted("a", 0), weighted("b", 2), weighted("c", 0)];
    let mut rng = SelectionRng::new(9);
    for _ in 0..2_000 {
        let picked = select_by_draw(&hosts, rng.next_below(1 << 64)).unwrap();
        assert_eq!(picked.ip, "b");
    }
}

#[test]
fn unhealthy_and_disabled_instances_are_never_selected() {
    let mut sick = weighted("a", 10);
    sick.healthy = false;
    let mut off = weighted("b", 10);
    off.enabled = false;
    let hosts = vec![sick, off, weighted("c", 1)];
    let mut rng = SelectionRng::new(4);
    for _ in 0..2_000 {
        let picked = select_by_draw(&hosts, rng.next_below(1 << 64)).unwrap();
        assert_eq!(picked.ip, "c");
    }
}

#[test]
fn empty_eligible_set_fails_with_no_available_instance() {
    let r = select_by_draw(&Vec::new(), 0);
    assert!(matches!(r, Err(ClientError::NoAvailableInstance)));

    let mut sick = weighted("a", 10);
    sick.healthy = false;
    let r = select_by_draw(&vec![sick, weighted("b", 0)], 17);
    assert!(matches!(r, Err(ClientError::NoAvailableInstance)));
}

#[test]
fn selection_walks_cumulative_weights_in_order() {
    // Weights 2 and 5: draws 0 and 1 land on the first instance,
    // draws 2..6 on the second; the draw is taken modulo the total 7.
    let hosts = vec![weighted("a", 2), weighted("b", 5)];
    assert_eq!(select_by_draw(&hosts, 0).unwrap().ip, "a");
    assert_eq!(select_by_draw(&hosts, 1).unwrap().ip, "a");
    assert_eq!(select_by_draw(&hosts, 2).unwrap().ip, "b");
    assert_eq!(select_by_draw(&hosts, 6).unwrap().ip, "b");
    assert_eq!(select_by_draw(&hosts, 7).unwrap().ip, "a");
}

#[test]
fn draws_stay_below_their_bound() {
    let mut rng = SelectionRng::new(0);
    for bound in [1u128, 2, 3, 10, 1000] {
        for _ in 0..100 {
            assert!(rng.next_below(bound) < bound);
        }
    }
}
