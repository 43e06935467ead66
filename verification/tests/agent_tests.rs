use agent::services::metrics::recolectar_metricas;

#[test]
fn test_recolectar_metricas_devuelve_datos_validos() {
    let metrica = recolectar_metricas();
    let cpu_usage = f64::from_bits(metrica.cpu_usage);
    let ram_usage = f64::from_bits(metrica.ram_usage);

    assert!(cpu_usage >= 0.0 && cpu_usage <= 100.0, "El uso de CPU debe estar entre 0 y 100");
    assert!(ram_usage >= 0.0, "El uso de RAM debe ser un valor positivo");
    assert!(metrica.timestamp > 1672531200, "El timestamp parece ser inválido");
}
