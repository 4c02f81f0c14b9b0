use sistema_defensa::cpu::CPUInfo;
use sistema_defensa::disco::{DiscoInfo, DiscosInfo};
use sistema_defensa::historial::HistorialAcotado;
use sistema_defensa::interfaces::{InterfaceInfo, InterfacesInfo};
use sistema_defensa::memoria::MemoriaInfo;
use sistema_defensa::metrics::Metric;
use sistema_defensa::paneles::{PanelAlertas, PanelGraficas, MAX_PUNTOS};
use sistema_defensa::procesos::ProcesosInfo;

fn con_memoria(usada_mb: u64, total_mb: u64) -> Metric {
    Metric::nueva(
        0,
        CPUInfo::desde_sistema("cpu".to_string(), 3000, vec![5000, 7000]),
        MemoriaInfo::desde_sistema(total_mb << 20, (total_mb - usada_mb) << 20, usada_mb << 20, 0, 0, 0),
        InterfacesInfo::desde_sistema(vec![InterfaceInfo::desde_sistema(
            "eth0".to_string(),
            2_500_000,
            10,
            1,
            1,
            0,
            0,
            0,
            Vec::new(),
            "00:00:00:00:00:00".to_string(),
            1500,
        )])
        .unwrap(),
        DiscosInfo::desde_discos(vec![DiscoInfo::new(
            "sda".to_string(),
            "ext4".to_string(),
            400,
            100,
            300,
            "/".to_string(),
            false,
            false,
        )])
        .unwrap(),
        ProcesosInfo::desde_procesos(Vec::new()),
    )
}

#[test]
fn memory_alert_above_threshold() {
    let m = con_memoria(80, 100);
    assert!(PanelAlertas::evaluar(&m, 10_000, 7_500).memoria);
    assert!(!PanelAlertas::evaluar(&m, 10_000, 8_500).memoria);
    assert!(!PanelAlertas::evaluar(&m, 10_000, 8_000).memoria);
}

#[test]
fn cpu_alert_compares_the_mean_usage() {
    let m = con_memoria(80, 100);
    // cores at 50 % and 70 %: the mean is 60 %
    assert!(PanelAlertas::evaluar(&m, 5_999, 10_000).cpu);
    assert!(!PanelAlertas::evaluar(&m, 6_000, 10_000).cpu);
}

#[test]
fn no_core_raises_no_cpu_alert() {
    let cpu = CPUInfo::desde_sistema("cpu".to_string(), 0, Vec::new());
    assert!(!cpu.supera_limite(0));
    assert_eq!(cpu.promedio_uso(), 0);
}

#[test]
fn history_keeps_the_most_recent_hundred() {
    let mut h = HistorialAcotado::new(100);
    for v in 0..150u64 {
        h.push(v);
        assert!(h.len() <= 100);
    }
    assert_eq!(h.len(), 100);
    let valores: Vec<u64> = h.valores().iter().copied().collect();
    assert_eq!(valores, (50..150u64).collect::<Vec<u64>>());
}

#[test]
fn history_below_capacity_keeps_everything() {
    let mut h = HistorialAcotado::new(3);
    h.push(7);
    h.push(8);
    assert_eq!(h.valores().iter().copied().collect::<Vec<u64>>(), vec![7, 8]);
    h.push(9);
    h.push(10);
    assert_eq!(h.valores().iter().copied().collect::<Vec<u64>>(), vec![8, 9, 10]);
}

#[test]
fn charts_push_the_four_figures() {
    let mut panel = PanelGraficas::new();
    assert_eq!(panel.max_puntos(), MAX_PUNTOS);
    panel.actualizar_historicos(&con_memoria(80, 100));
    let cpu: Vec<u64> = panel.historico_cpu().valores().iter().copied().collect();
    let memoria: Vec<u64> = panel.historico_memoria().valores().iter().copied().collect();
    let red: Vec<u64> = panel.historico_red().valores().iter().copied().collect();
    let disco: Vec<u64> = panel.historico_disco().valores().iter().copied().collect();
    assert_eq!(cpu, vec![6000]);
    assert_eq!(memoria, vec![8000]);
    assert_eq!(red, vec![2500]);
    assert_eq!(disco, vec![2500]);
}

#[test]
fn every_chart_stays_within_its_capacity() {
    let mut panel = PanelGraficas::new();
    let m = con_memoria(30, 120);
    for _ in 0..(MAX_PUNTOS + 20) {
        panel.actualizar_historicos(&m);
    }
    assert_eq!(panel.historico_cpu().len(), MAX_PUNTOS);
    assert_eq!(panel.historico_memoria().len(), MAX_PUNTOS);
    assert_eq!(panel.historico_red().len(), MAX_PUNTOS);
    assert_eq!(panel.historico_disco().len(), MAX_PUNTOS);
    assert_eq!(*panel.historico_memoria().valores().back().unwrap(), 2500);
}
