use sistema_defensa::cpu::CPUInfo;
use sistema_defensa::disco::{DiscoInfo, DiscosInfo};
use sistema_defensa::interfaces::{InterfaceInfo, InterfacesInfo};
use sistema_defensa::memoria::MemoriaInfo;
use sistema_defensa::procesos::{Criterio, ProcesoInfo, ProcesosInfo, ordenar_desc};

const MB: u64 = 1 << 20;
const GB: u64 = 1 << 30;

fn interfaz(nombre: &str, rx: u64, tx: u64, ips: usize, mac: &str, mtu: u64) -> InterfaceInfo {
    InterfaceInfo::desde_sistema(
        nombre.to_string(),
        rx,
        tx,
        rx / 100,
        tx / 100,
        3,
        1,
        2,
        (0..ips).map(|i| format!("10.0.0.{}/24", i)).collect(),
        mac.to_string(),
        mtu,
    )
}

fn proceso(pid: i32, cpu: u32, memoria_mb: u64, tiempo_cpu: u64, tiempo: u64) -> ProcesoInfo {
    ProcesoInfo::desde_sistema(
        pid,
        format!("p{}", pid),
        tiempo,
        tiempo_cpu,
        cpu,
        memoria_mb * MB,
        2 * memoria_mb * MB,
        "Run".to_string(),
    )
}

fn pids(v: &Vec<ProcesoInfo>) -> Vec<i32> {
    v.iter().map(|p| p.get_pid()).collect()
}

#[test]
fn memory_figures_in_mib() {
    let m = MemoriaInfo::desde_sistema(8 * GB, 3 * GB, 5 * GB + MB / 2, 2 * GB, GB, GB);
    assert_eq!(m.get_total_ram(), 8192);
    assert_eq!(m.get_libre_ram(), 3072);
    assert_eq!(m.get_usada_ram(), 5120);
    assert_eq!(m.get_swap_total(), 2048);
    assert_eq!(m.get_swap_libre(), 1024);
    assert_eq!(m.get_swap_usada(), 1024);
    assert_eq!(m.get_memoria_total(), 10240);
    assert_eq!(m.get_memoria_usada(), 6144);
    assert_eq!(m.get_memoria_libre(), 3071 + 1024);
    assert_eq!(m.get_memoria_total_sistema(), 10240);
    assert_eq!(m.porcentaje_usado(), 6000);
}

#[test]
fn memory_with_no_total_is_at_zero_percent() {
    let m = MemoriaInfo::desde_sistema(0, 0, 0, 0, 0, 0);
    assert_eq!(m.porcentaje_usado(), 0);
    assert!(!m.supera_limite(0));
}

#[test]
fn interface_totals() {
    let info = InterfacesInfo::desde_sistema(vec![
        interfaz("lo", 1000, 1000, 1, "00:00:00:00:00:00", 65536),
        interfaz("eth0", 5000, 700, 2, "aa:bb:cc:dd:ee:ff", 1500),
    ])
    .unwrap();
    assert_eq!(info.get_cantidad_interfaces(), 2);
    assert_eq!(info.get_bytes_recibidos(), 6000);
    assert_eq!(info.get_bytes_enviados(), 1700);
    assert_eq!(info.get_numero_paquetes_recibidos(), 60);
    assert_eq!(info.get_numero_paquetes_enviados(), 17);
    assert_eq!(info.get_total_errores(), 6);
    assert_eq!(info.get_direccion_ip(), 3);
    assert_eq!(info.get_direccion_mac(), 1);
    assert_eq!(info.get_mtu(), 67036);
    assert_eq!(info.get_interfaz(1).get_nombre(), "eth0");
    assert_eq!(info.get_interfaces().len(), 2);
}

#[test]
fn interface_totals_that_overflow_give_none() {
    let v = vec![
        interfaz("a", u64::MAX, 0, 0, "x", 0),
        interfaz("b", 1, 0, 0, "x", 0),
    ];
    assert!(InterfacesInfo::desde_sistema(v).is_none());
}

#[test]
fn empty_interface_has_zero_counters() {
    let i = InterfaceInfo::new();
    assert_eq!(i.get_nombre(), "");
    assert_eq!(i.get_bytes_recibidos(), 0);
    assert_eq!(i.get_total_errores_recibidos(), 0);
    assert_eq!(i.get_total_errores_enviados(), 0);
    assert!(i.get_direccion_ip().is_empty());
    assert_eq!(i.get_direccion_mac(), "");
    assert_eq!(i.get_mtu(), 0);
}

#[test]
fn disks_with_a_repeated_name_count_once() {
    let info = DiscosInfo::desde_discos(vec![
        DiscoInfo::desde_bytes("sda".into(), "ext4".into(), 500 * GB, 200 * GB + 5, "/".into(), false, false),
        DiscoInfo::desde_bytes("sda".into(), "ext4".into(), 500 * GB, 200 * GB, "/home".into(), false, false),
        DiscoInfo::desde_bytes("sdb".into(), "vfat".into(), 64 * GB, 60 * GB, "/mnt".into(), true, true),
    ])
    .unwrap();
    assert_eq!(info.get_cantidad_discos(), 2);
    assert_eq!(info.get_espacio_total(), 564);
    assert_eq!(info.get_espacio_libre(), 260);
    assert_eq!(info.get_espacio_usado(), 304);
    assert_eq!(info.get_disco(0).get_ruta(), "/");
    assert_eq!(info.get_disco(1).get_nombre(), "sdb");
    assert!(info.get_disco(1).get_removible());
    assert!(info.get_disco(1).get_solo_lectura());
    assert_eq!(info.get_disco(1).get_espacio_usado(), 4);
    assert_eq!(info.porcentaje_libre(), 4609);
}

#[test]
fn disk_totals_that_overflow_give_none() {
    let v = vec![
        DiscoInfo::new("a".into(), "x".into(), u64::MAX, 0, u64::MAX, "/a".into(), false, false),
        DiscoInfo::new("b".into(), "x".into(), 1, 0, 1, "/b".into(), false, false),
    ];
    assert!(DiscosInfo::desde_discos(v).is_none());
}

#[test]
fn disks_with_more_free_than_total_space_give_none() {
    let v = vec![DiscoInfo::new("a".into(), "x".into(), 10, 20, 0, "/a".into(), false, false)];
    assert!(DiscosInfo::desde_discos(v).is_none());
    let w = vec![DiscoInfo::new("a".into(), "x".into(), 10, 4, 9, "/a".into(), false, false)];
    let info = DiscosInfo::desde_discos(w).unwrap();
    assert_eq!(info.get_espacio_usado(), 6);
    assert_eq!(info.get_disco(0).get_espacio_usado(), 9);
}

#[test]
fn interface_keeps_the_figures_it_was_given() {
    let i = InterfaceInfo::desde_sistema(
        "wlan0".to_string(),
        11,
        12,
        13,
        14,
        7,
        1,
        2,
        vec!["192.168.1.2/24".to_string()],
        "aa:aa:aa:aa:aa:aa".to_string(),
        1400,
    );
    assert_eq!(i.get_nombre(), "wlan0");
    assert_eq!(i.get_bytes_recibidos(), 11);
    assert_eq!(i.get_bytes_enviados(), 12);
    assert_eq!(i.get_numero_paquetes_recibidos(), 13);
    assert_eq!(i.get_numero_paquetes_enviados(), 14);
    assert_eq!(i.get_total_errores(), 7);
    assert_eq!(i.get_total_errores_recibidos(), 1);
    assert_eq!(i.get_total_errores_enviados(), 2);
    assert_eq!(i.get_direccion_ip(), &vec!["192.168.1.2/24".to_string()]);
    assert_eq!(i.get_direccion_mac(), "aa:aa:aa:aa:aa:aa");
    assert_eq!(i.get_mtu(), 1400);
}

#[test]
fn cpu_mean_usage() {
    let cpu = CPUInfo::desde_sistema("Ryzen".to_string(), 3600, vec![1000, 2000, 3001]);
    assert_eq!(cpu.get_cantidad_nucleos(), 3);
    assert_eq!(cpu.get_brand(), "Ryzen");
    assert_eq!(cpu.get_frecuencia(), 3600);
    assert_eq!(cpu.uso_total(), 6001);
    assert_eq!(cpu.promedio_uso(), 2000);
}

#[test]
fn stable_descending_order() {
    let v = vec![proceso(1, 10, 5, 0, 0), proceso(2, 30, 5, 0, 0), proceso(3, 10, 9, 0, 0), proceso(4, 30, 1, 0, 0)];
    assert_eq!(pids(&ordenar_desc(&v, Criterio::UsoCpu)), vec![2, 4, 1, 3]);
    assert_eq!(pids(&ordenar_desc(&v, Criterio::UsoMemoria)), vec![3, 1, 2, 4]);
}

#[test]
fn process_rankings_keep_five_each() {
    let v: Vec<ProcesoInfo> = (1..=7)
        .map(|i| proceso(i, (i as u32) * 100, (8 - i) as u64, (i % 3) as u64, 100 - i as u64))
        .collect();
    let info = ProcesosInfo::desde_procesos(v);
    assert_eq!(info.get_cantidad_procesos(), 7);
    assert_eq!(pids(info.get_top_procesos_uso_cpu()), vec![7, 6, 5, 4, 3]);
    assert_eq!(pids(info.get_top_procesos_uso_memoria()), vec![1, 2, 3, 4, 5]);
    assert_eq!(pids(info.get_top_procesos_tiempo_cpu()), vec![2, 5, 1, 4, 7]);
    assert_eq!(pids(info.get_top_procesos_tiempo_ejecucion()), vec![1, 2, 3, 4, 5]);
    assert_eq!(pids(info.get_procesos()), vec![1, 2, 3, 4, 5, 6, 7]);
    assert_eq!(info.get_proceso(6).get_uso_memoria(), 1);
    assert_eq!(info.get_proceso(6).get_uso_memoria_virtual(), 2);
    assert_eq!(info.get_proceso(0).get_nombre(), "p1");
    assert_eq!(info.get_proceso(0).get_estado(), "Run");
}

#[test]
fn fewer_than_five_processes_are_all_ranked() {
    let info = ProcesosInfo::desde_procesos(vec![proceso(1, 1, 1, 1, 1), proceso(2, 2, 2, 2, 2)]);
    assert_eq!(pids(info.get_top_procesos_uso_cpu()), vec![2, 1]);
    assert_eq!(pids(info.get_top_procesos_tiempo_cpu()), vec![2, 1]);
}

#[test]
fn time_in_words() {
    assert_eq!(ProcesoInfo::desglosar_tiempo(90061), (1, 1, 1, 1));
    assert_eq!(ProcesoInfo::formatear_tiempo(90061), "1 días, 1 horas, 1 minutos, 1 segundos");
    assert_eq!(ProcesoInfo::formatear_tiempo(59), "0 días, 0 horas, 0 minutos, 59 segundos");
    assert_eq!(ProcesoInfo::formatear_tiempo(3 * 86400 + 7200 + 1800 + 5), "3 días, 2 horas, 30 minutos, 5 segundos");
}
