use sistema_defensa::cpu::CPUInfo;
use sistema_defensa::disco::DiscosInfo;
use sistema_defensa::interfaces::InterfacesInfo;
use sistema_defensa::memoria::MemoriaInfo;
use sistema_defensa::metrics::{AccionMonitor, FaseMonitor, Metric, Metrics, MAX_INSTANTE, MIN_INSTANTE};
use sistema_defensa::procesos::ProcesosInfo;

fn instantanea(instante: i64) -> Metric {
    Metric::nueva(
        instante,
        CPUInfo::desde_sistema("cpu".to_string(), 2400, vec![1000, 3000]),
        MemoriaInfo::desde_sistema(100 << 20, 20 << 20, 80 << 20, 0, 0, 0),
        InterfacesInfo::desde_sistema(Vec::new()).unwrap(),
        DiscosInfo::desde_discos(Vec::new()).unwrap(),
        ProcesosInfo::desde_procesos(Vec::new()),
    )
}

#[test]
fn refresh_keeps_call_order() {
    let mut store = Metrics::new();
    for t in [10, 20, 30, 40] {
        store.refresh(instantanea(t));
    }
    assert_eq!(store.cantidad(), 4);
    let instantes: Vec<i64> = (0..4).map(|i| store.instantanea(i).instante()).collect();
    assert_eq!(instantes, vec![10, 20, 30, 40]);
    assert!(instantes.windows(2).all(|w| w[0] < w[1]));
}

#[test]
fn latest_on_empty_store_is_none() {
    let store = Metrics::new();
    assert!(store.latest().is_none());
    assert_eq!(store.cantidad(), 0);
}

#[test]
fn latest_after_one_refresh_is_that_snapshot() {
    let mut store = Metrics::new();
    store.refresh(instantanea(1_700_000_000));
    let m = store.latest().unwrap();
    assert_eq!(m.instante(), 1_700_000_000);
    assert_eq!(m.memoria().get_memoria_usada(), 80);
}

#[test]
fn three_refreshes_latest_is_the_third() {
    let mut store = Metrics::new();
    store.refresh(instantanea(100));
    store.refresh(instantanea(200));
    store.refresh(instantanea(300));
    assert_eq!(store.latest().unwrap().instante(), 300);
    assert_eq!(store.cantidad(), 3);
}

#[test]
fn snapshot_id_is_local_time_in_mexico_city() {
    assert_eq!(instantanea(0).id(), "1969-12-31T18:00:00-06:00");
    assert_eq!(instantanea(1_700_000_000).id(), "2023-11-14T16:13:20-06:00");
}

#[test]
fn capture_stamps_with_the_clock() {
    let m = Metric::capturar(
        CPUInfo::desde_sistema("cpu".to_string(), 2400, vec![500]),
        MemoriaInfo::desde_sistema(1 << 30, 0, 1 << 29, 0, 0, 0),
        InterfacesInfo::desde_sistema(Vec::new()).unwrap(),
        DiscosInfo::desde_discos(Vec::new()).unwrap(),
        ProcesosInfo::desde_procesos(Vec::new()),
    )
    .unwrap();
    assert!(m.instante() > 1_600_000_000);
    assert_eq!(m.id().len(), 25);
    assert_eq!(m.memoria().get_memoria_usada(), 512);
}

#[test]
fn starting_twice_spawns_one_poller() {
    let mut store = Metrics::new();
    store.refresh(instantanea(5));
    assert_eq!(store.start_monitoring(), AccionMonitor::LanzarSondeo);
    assert_eq!(store.cantidad(), 0);
    assert!(store.monitoreando());
    assert_eq!(store.start_monitoring(), AccionMonitor::Ninguna);
    assert_eq!(store.fase(), FaseMonitor::Activo);
}

#[test]
fn stop_then_join_leaves_no_poller() {
    let mut store = Metrics::new();
    store.start_monitoring();
    assert_eq!(store.stop_monitoring(), AccionMonitor::SenalarYEsperar);
    assert_eq!(store.fase(), FaseMonitor::Deteniendo);
    assert_eq!(store.start_monitoring(), AccionMonitor::Ninguna);
    store.sondeo_terminado();
    assert!(!store.monitoreando());
    assert_eq!(store.stop_monitoring(), AccionMonitor::Ninguna);
}

#[test]
fn monitoring_round_keeps_polled_snapshots() {
    let mut store = Metrics::new();
    assert_eq!(store.start_monitoring(), AccionMonitor::LanzarSondeo);
    assert!(store.registrar_sondeo(instantanea(10)));
    assert!(store.registrar_sondeo(instantanea(15)));
    assert_eq!(store.stop_monitoring(), AccionMonitor::SenalarYEsperar);
    // a snapshot taken before the poller saw the stop is still kept
    assert!(!store.registrar_sondeo(instantanea(20)));
    store.sondeo_terminado();
    assert!(store.cantidad() >= 1);
    assert_eq!(store.cantidad(), 3);
    assert_eq!(store.latest().unwrap().instante(), 20);
    assert!(!store.monitoreando());
}

#[test]
fn poller_offer_without_monitoring_is_refused() {
    let mut store = Metrics::new();
    assert!(!store.registrar_sondeo(instantanea(10)));
    assert_eq!(store.cantidad(), 0);
}

#[test]
fn clone_copies_snapshots_but_not_the_poller() {
    let mut store = Metrics::new();
    store.start_monitoring();
    store.registrar_sondeo(instantanea(7));
    let copia = store.clone();
    assert_eq!(copia.cantidad(), 1);
    assert_eq!(copia.latest().unwrap().instante(), 7);
    assert!(!copia.monitoreando());
    assert!(store.monitoreando());
}

fn lecturas() -> (CPUInfo, MemoriaInfo, InterfacesInfo, DiscosInfo, ProcesosInfo) {
    (
        CPUInfo::desde_sistema("cpu".to_string(), 1, vec![1]),
        MemoriaInfo::desde_sistema(0, 0, 0, 0, 0, 0),
        InterfacesInfo::desde_sistema(Vec::new()).unwrap(),
        DiscosInfo::desde_discos(Vec::new()).unwrap(),
        ProcesosInfo::desde_procesos(Vec::new()),
    )
}

#[test]
fn stamping_outside_the_range_gives_none() {
    let (c, m, r, d, p) = lecturas();
    assert!(Metric::sellar(MAX_INSTANTE + 1, c, m, r, d, p).is_none());
    let (c, m, r, d, p) = lecturas();
    assert!(Metric::sellar(MIN_INSTANTE - 1, c, m, r, d, p).is_none());
}

#[test]
fn stamping_inside_the_range_names_the_instant() {
    let (c, m, r, d, p) = lecturas();
    let s = Metric::sellar(1_700_000_000, c, m, r, d, p).unwrap();
    assert_eq!(s.id(), "2023-11-14T16:13:20-06:00");
    assert_eq!(s.instante(), 1_700_000_000);
    let (c, m, r, d, p) = lecturas();
    let antes = Metric::sellar(-86_400, c, m, r, d, p).unwrap();
    assert_eq!(antes.instante(), -86_400);
    assert!(antes.id().starts_with("1969-12-30T"));
    let (c, m, r, d, p) = lecturas();
    assert!(Metric::sellar(MIN_INSTANTE, c, m, r, d, p).is_some());
    let (c, m, r, d, p) = lecturas();
    assert!(Metric::sellar(MAX_INSTANTE, c, m, r, d, p).is_some());
}

#[test]
fn offer_with_no_poller_is_dropped_and_offer_while_stopping_is_kept() {
    let mut store = Metrics::new();
    store.start_monitoring();
    store.stop_monitoring();
    assert!(!store.registrar_sondeo(instantanea(1)));
    assert_eq!(store.cantidad(), 1);
    store.sondeo_terminado();
    assert!(!store.registrar_sondeo(instantanea(2)));
    assert_eq!(store.cantidad(), 1);
}
