use tanda::date_handling::agregar_dias;
use tanda::date_handling::calcular_inicio;
use tanda::date_handling::desplazar_instante;
use tanda::date_handling::fecha_de_instante;
use tanda::date_handling::fecha_desplazada;
use tanda::date_handling::fecha_tras_dias;
use tanda::date_handling::instante_de;
use tanda::date_handling::truncar_al_dia;
use tanda::periodos::calcular_ventanas;
use tanda::periodos::generar_periodos;
use tanda::periodos::regenerar_periodos;
use tanda::types::fecha_final_de;
use tanda::Error;

#[test]
fn agregar_dias_suma_dias_de_calendario() {
    assert_eq!(agregar_dias("2024-01-01 00:00:00 UTC", 7).unwrap(), "2024-01-08 00:00:00 UTC");
    assert_eq!(agregar_dias("2024-01-01 00:00:00 UTC", 0).unwrap(), "2024-01-01 00:00:00 UTC");
    assert_eq!(agregar_dias("2024-01-01 00:00:00 UTC", 6).unwrap(), "2024-01-07 00:00:00 UTC");
    assert_eq!(agregar_dias("2024-01-31 00:00:00 UTC", 1).unwrap(), "2024-02-01 00:00:00 UTC");
    assert_eq!(agregar_dias("2024-01-01 00:00:00 UTC", -1).unwrap(), "2023-12-31 00:00:00 UTC");
    assert_eq!(agregar_dias("2023-12-31 00:00:00 UTC", 366).unwrap(), "2024-12-31 00:00:00 UTC");
}

#[test]
fn agregar_dias_conoce_los_bisiestos() {
    assert_eq!(agregar_dias("2024-02-28 00:00:00 UTC", 1).unwrap(), "2024-02-29 00:00:00 UTC");
    assert_eq!(agregar_dias("2023-02-28 00:00:00 UTC", 1).unwrap(), "2023-03-01 00:00:00 UTC");
    assert_eq!(agregar_dias("1900-02-28 00:00:00 UTC", 1).unwrap(), "1900-03-01 00:00:00 UTC");
    assert_eq!(agregar_dias("2000-02-28 00:00:00 UTC", 1).unwrap(), "2000-02-29 00:00:00 UTC");
}

#[test]
fn agregar_dias_conserva_la_hora() {
    assert_eq!(agregar_dias("2024-03-10 13:45:09 UTC", 30).unwrap(), "2024-04-09 13:45:09 UTC");
}

#[test]
fn agregar_dias_rechaza_texto_que_no_es_fecha() {
    assert_eq!(agregar_dias("", 1), Err(Error::FormatoFecha));
    assert_eq!(agregar_dias("2024-01-01", 1), Err(Error::FormatoFecha));
    assert_eq!(agregar_dias("2024-01-01 00:00:00", 1), Err(Error::FormatoFecha));
    assert_eq!(agregar_dias("2024-13-01 00:00:00 UTC", 1), Err(Error::FormatoFecha));
    assert_eq!(agregar_dias("2024-02-30 00:00:00 UTC", 1), Err(Error::FormatoFecha));
    assert_eq!(agregar_dias("mañana", 1), Err(Error::FormatoFecha));
    assert_eq!(agregar_dias("2024-01-01 00:00:00 UTC", i64::MAX), Err(Error::FechaFueraDeRango));
    assert_eq!(agregar_dias("no", i64::MAX), Err(Error::FormatoFecha));
}

#[test]
fn agregar_dias_falla_fuera_del_calendario() {
    assert_eq!(agregar_dias("2024-01-01 00:00:00 UTC", i64::MAX), Err(Error::FechaFueraDeRango));
    assert_eq!(agregar_dias("2024-01-01 00:00:00 UTC", i64::MIN), Err(Error::FechaFueraDeRango));
    assert_eq!(
        agregar_dias("2024-01-01 00:00:00 UTC", 200_000_000),
        Err(Error::FechaFueraDeRango)
    );
    assert_eq!(Error::FechaFueraDeRango.categoria(), tanda::Categoria::Validacion);
    assert_eq!(Error::FormatoFecha.categoria(), tanda::Categoria::Validacion);
}

#[test]
fn calcular_inicio_trunca_al_dia() {
    assert_eq!(calcular_inicio(0).unwrap(), "1970-01-01 00:00:00 UTC");
    assert_eq!(calcular_inicio(1_704_067_200_000_000_000).unwrap(), "2024-01-01 00:00:00 UTC");
    assert_eq!(calcular_inicio(1_704_070_800_123_456_789).unwrap(), "2024-01-01 00:00:00 UTC");
    assert_eq!(calcular_inicio(1_704_153_599_999_999_999).unwrap(), "2024-01-01 00:00:00 UTC");
    assert_eq!(calcular_inicio(1_704_153_600_000_000_000).unwrap(), "2024-01-02 00:00:00 UTC");
    assert_eq!(calcular_inicio(u64::MAX).unwrap(), "2554-07-21 00:00:00 UTC");
}

#[test]
fn truncar_al_dia_da_el_primer_segundo() {
    assert_eq!(truncar_al_dia(0), 0);
    assert_eq!(truncar_al_dia(999_999_999), 0);
    assert_eq!(truncar_al_dia(86_399_999_999_999), 0);
    assert_eq!(truncar_al_dia(86_400_000_000_000), 86_400);
    assert_eq!(truncar_al_dia(1_704_070_800_123_456_789), 1_704_067_200);
    assert_eq!(truncar_al_dia(u64::MAX), 18_446_744_073 - 18_446_744_073 % 86_400);
}

#[test]
fn desplazar_instante_cuenta_segundos() {
    assert_eq!(desplazar_instante(0, 0), Some(0));
    assert_eq!(desplazar_instante(0, 1), Some(86_400));
    assert_eq!(desplazar_instante(10, -1), Some(-86_390));
    assert_eq!(desplazar_instante(1_704_067_200, 7), Some(1_704_672_000));
    assert_eq!(desplazar_instante(i64::MAX, 1), None);
    assert_eq!(desplazar_instante(i64::MIN, -1), None);
    assert_eq!(desplazar_instante(0, i64::MAX), None);
    assert_eq!(desplazar_instante(0, 106_751_991_167_300), Some(106_751_991_167_300 * 86_400));
    assert_eq!(desplazar_instante(0, 106_751_991_167_301), None);
}

#[test]
fn leer_y_escribir_una_fecha() {
    assert_eq!(instante_de("1970-01-01 00:00:00 UTC"), Ok(0));
    assert_eq!(instante_de("2024-01-01 00:00:00 UTC"), Ok(1_704_067_200));
    assert_eq!(instante_de("2024-01-01 01:00:01 UTC"), Ok(1_704_070_801));
    assert_eq!(instante_de("1969-12-31 23:59:59 UTC"), Ok(-1));
    assert_eq!(instante_de("2024-01-01T00:00:00Z"), Err(Error::FormatoFecha));
    assert_eq!(fecha_de_instante(0).unwrap(), "1970-01-01 00:00:00 UTC");
    assert_eq!(fecha_de_instante(1_704_070_801).unwrap(), "2024-01-01 01:00:01 UTC");
    assert_eq!(fecha_de_instante(-1).unwrap(), "1969-12-31 23:59:59 UTC");
    assert_eq!(fecha_de_instante(i64::MAX), Err(Error::FechaFueraDeRango));
    assert_eq!(fecha_de_instante(i64::MIN), Err(Error::FechaFueraDeRango));
}

#[test]
fn fecha_desplazada_y_tras_dias() {
    assert_eq!(fecha_desplazada(0, 31).unwrap(), "1970-02-01 00:00:00 UTC");
    assert_eq!(fecha_desplazada(0, -1).unwrap(), "1969-12-31 00:00:00 UTC");
    assert_eq!(fecha_desplazada(0, i64::MAX), Err(Error::FechaFueraDeRango));
    assert_eq!(fecha_tras_dias(0, 365).unwrap(), "1971-01-01 00:00:00 UTC");
    assert_eq!(fecha_tras_dias(0, u64::MAX), Err(Error::FechaFueraDeRango));
    assert_eq!(fecha_tras_dias(0, 1u64 << 63), Err(Error::FechaFueraDeRango));
}

#[test]
fn fecha_final_de_una_tanda() {
    assert_eq!(fecha_final_de("2024-01-01 00:00:00 UTC", 3, 7).unwrap(), "2024-01-21 00:00:00 UTC");
    assert_eq!(fecha_final_de("2024-01-01 00:00:00 UTC", 1, 1).unwrap(), "2024-01-01 00:00:00 UTC");
    assert_eq!(fecha_final_de("2024-01-01 00:00:00 UTC", 0, 7).unwrap(), "2023-12-31 00:00:00 UTC");
    assert_eq!(fecha_final_de("2024-01-01", 3, 7), Err(Error::FormatoFecha));
    assert_eq!(
        fecha_final_de("2024-01-01 00:00:00 UTC", u32::MAX, u32::MAX),
        Err(Error::FechaFueraDeRango)
    );
}

#[test]
fn las_ventanas_se_siguen_sin_hueco() {
    let w = calcular_ventanas("2024-02-20 00:00:00 UTC", 15, 4).unwrap();
    assert_eq!(w.len(), 4);
    assert_eq!(w[0].inicio, "2024-02-20 00:00:00 UTC");
    assert_eq!(w[0].fin, "2024-03-05 00:00:00 UTC");
    assert_eq!(w[1].inicio, "2024-03-06 00:00:00 UTC");
    assert_eq!(w[3].fin, "2024-04-19 00:00:00 UTC");
    for k in 0..3 {
        assert_eq!(agregar_dias(&w[k].fin, 1).unwrap(), w[k + 1].inicio);
        assert_eq!(agregar_dias(&w[k].inicio, 14).unwrap(), w[k].fin);
    }
}

#[test]
fn las_ventanas_fallan_enteras() {
    assert_eq!(calcular_ventanas("2024-02-20 00:00:00 UTC", 0, 4), Err(Error::PeriodoInvalido));
    assert_eq!(calcular_ventanas("ayer", 0, 4), Err(Error::PeriodoInvalido));
    assert_eq!(calcular_ventanas("ayer", 7, 4), Err(Error::FormatoFecha));
    assert_eq!(calcular_ventanas("ayer", 7, 0), Err(Error::FormatoFecha));
    assert_eq!(calcular_ventanas("2024-02-20 00:00:00 UTC", 7, 0), Ok(vec![]));
    assert_eq!(
        calcular_ventanas("2024-02-20 00:00:00 UTC", u32::MAX, 2),
        Err(Error::FechaFueraDeRango)
    );
    assert_eq!(calcular_ventanas("2024-02-20 00:00:00 UTC", 1, 1).unwrap()[0].fin, "2024-02-20 00:00:00 UTC");
}

#[test]
fn la_primera_ventana_empieza_en_el_texto_dado() {
    let w = calcular_ventanas("2024-1-5 0:0:0 UTC", 7, 2).unwrap();
    assert_eq!(w[0].inicio, "2024-1-5 0:0:0 UTC");
    assert_eq!(w[0].fin, "2024-01-11 00:00:00 UTC");
    assert_eq!(w[1].inicio, "2024-01-12 00:00:00 UTC");
}

#[test]
fn generar_periodos_los_deja_en_blanco() {
    let ps = generar_periodos("2024-01-01 00:00:00 UTC", 30, 2).unwrap();
    assert_eq!(ps.len(), 2);
    assert_eq!(ps[0].inicio, "2024-01-01 00:00:00 UTC");
    assert_eq!(ps[0].fin, "2024-01-30 00:00:00 UTC");
    assert_eq!(ps[1].inicio, "2024-01-31 00:00:00 UTC");
    assert_eq!(ps[1].fin, "2024-02-29 00:00:00 UTC");
    for p in ps.iter() {
        assert_eq!(p.usuario_en_turno, "");
        assert_eq!(p.cantidad_recaudada, 0);
        assert!(p.integrantes_pagados.is_empty());
        assert!(!p.pagos_completos);
        assert!(!p.tanda_pagada);
    }
    assert_eq!(generar_periodos("2024-01-01 00:00:00 UTC", 0, 2), Err(Error::PeriodoInvalido));
    assert_eq!(generar_periodos("hoy", 7, 2), Err(Error::FormatoFecha));
}

#[test]
fn regenerar_periodos_solo_cambia_fechas() {
    let mut ps = generar_periodos("2024-01-01 00:00:00 UTC", 7, 3).unwrap();
    ps[1].usuario_en_turno = String::from("beto.near");
    ps[1].cantidad_recaudada = 200;
    ps[1].integrantes_pagados = vec![String::from("ana.near"), String::from("beto.near")];
    ps[2].pagos_completos = true;
    ps[2].tanda_pagada = true;
    regenerar_periodos(&mut ps, "2024-03-01 00:00:00 UTC", 15).unwrap();
    assert_eq!(ps.len(), 3);
    assert_eq!(ps[0].inicio, "2024-03-01 00:00:00 UTC");
    assert_eq!(ps[0].fin, "2024-03-15 00:00:00 UTC");
    assert_eq!(ps[1].inicio, "2024-03-16 00:00:00 UTC");
    assert_eq!(ps[1].fin, "2024-03-30 00:00:00 UTC");
    assert_eq!(ps[2].inicio, "2024-03-31 00:00:00 UTC");
    assert_eq!(ps[2].fin, "2024-04-14 00:00:00 UTC");
    assert_eq!(ps[1].usuario_en_turno, "beto.near");
    assert_eq!(ps[1].cantidad_recaudada, 200);
    assert_eq!(ps[1].integrantes_pagados, vec![String::from("ana.near"), String::from("beto.near")]);
    assert!(!ps[1].pagos_completos);
    assert!(ps[2].pagos_completos);
    assert!(ps[2].tanda_pagada);
    assert_eq!(ps[0].usuario_en_turno, "");
}

#[test]
fn regenerar_periodos_que_falla_no_cambia_nada() {
    let mut ps = generar_periodos("2024-01-01 00:00:00 UTC", 7, 3).unwrap();
    let antes = generar_periodos("2024-01-01 00:00:00 UTC", 7, 3).unwrap();
    assert_eq!(regenerar_periodos(&mut ps, "pronto", 7), Err(Error::FormatoFecha));
    assert_eq!(ps, antes);
    assert_eq!(regenerar_periodos(&mut ps, "2024-03-01 00:00:00 UTC", 0), Err(Error::PeriodoInvalido));
    assert_eq!(ps, antes);
    assert_eq!(
        regenerar_periodos(&mut ps, "2024-03-01 00:00:00 UTC", u32::MAX),
        Err(Error::FechaFueraDeRango)
    );
    assert_eq!(ps, antes);
}
