use std::sync::Arc;
use std::sync::Mutex;

use smart_home::home::Home;

#[test]
fn create_then_fetch_reports_exactly() {
    let mut home = Home::default();
    assert_eq!(home.create_socket("s1".into(), 250, true), Some("s1".into()));
    assert_eq!(
        home.socket_info("s1".into()),
        Some("Socket s1 state is true, power is 250".into())
    );

    assert_eq!(home.create_thermo("t1".into(), -3), Some("t1".into()));
    assert_eq!(home.thermo_info("t1".into()), Some("Thermo t1 temperature is -3".into()));
}

#[test]
fn create_twice_keeps_first_record() {
    let mut home = Home::default();
    assert_eq!(home.create_socket("s".into(), 100, false), Some("s".into()));
    assert_eq!(home.create_socket("s".into(), 9, true), None);
    assert_eq!(
        home.socket_info("s".into()),
        Some("Socket s state is false, power is 100".into())
    );
}

#[test]
fn toggle_parity() {
    let mut home = Home::default();
    home.create_socket("s".into(), 1, false).unwrap();

    for _ in 0..5 {
        home.toggle_socket("s").unwrap();
    }
    assert_eq!(home.socket_info("s".into()), Some("Socket s state is true, power is 1".into()));

    home.toggle_socket("s").unwrap();
    assert_eq!(
        home.socket_info("s".into()),
        Some("Socket s state is false, power is 1".into())
    );
}

#[test]
fn set_thermo_last_write_wins() {
    let mut home = Home::default();
    home.create_thermo("t".into(), 0).unwrap();
    assert_eq!(home.set_thermo("t", 100), Some("t".into()));
    assert_eq!(home.set_thermo("t", 50), Some("t".into()));
    assert_eq!(home.thermo_info("t".into()), Some("Thermo t temperature is 50".into()));
}

#[test]
fn mutations_on_missing_ids_do_nothing() {
    let mut home = Home::default();
    assert_eq!(home.toggle_socket("none"), None);
    assert_eq!(home.set_thermo("none", 5), None);
    assert_eq!(home.socket_info("none".into()), None);
    assert_eq!(home.thermo_info("none".into()), None);
}

#[test]
fn namespaces_are_independent() {
    let mut home = Home::default();
    assert_eq!(home.create_socket("same".into(), 10, true), Some("same".into()));
    assert_eq!(home.create_thermo("same".into(), 20), Some("same".into()));
    assert_eq!(
        home.socket_info("same".into()),
        Some("Socket same state is true, power is 10".into())
    );
    assert_eq!(home.thermo_info("same".into()), Some("Thermo same temperature is 20".into()));
}

fn run_concurrent_toggles(k: usize) -> Option<String> {
    let mut home = Home::default();
    home.create_socket("s".into(), 60, false).unwrap();
    let shared = Arc::new(Mutex::new(home));

    let rt = tokio::runtime::Builder::new_multi_thread().worker_threads(8).build().unwrap();
    rt.block_on(async {
        let mut handles = Vec::new();
        for _ in 0..k {
            let shared = Arc::clone(&shared);
            handles.push(tokio::spawn(async move {
                shared.lock().unwrap().toggle_socket("s").unwrap();
            }));
        }
        for handle in handles {
            handle.await.unwrap();
        }
    });

    let home = Arc::try_unwrap(shared).ok().unwrap().into_inner().unwrap();
    home.socket_info("s".into())
}

#[test]
fn concurrent_toggles_even_count() {
    assert_eq!(
        run_concurrent_toggles(300),
        Some("Socket s state is false, power is 60".into())
    );
}

#[test]
fn concurrent_toggles_odd_count() {
    assert_eq!(
        run_concurrent_toggles(301),
        Some("Socket s state is true, power is 60".into())
    );
}
