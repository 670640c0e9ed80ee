use tanda::periodos::anotar_pago;
use tanda::periodos::copiar_periodos;
use tanda::periodos::fechas_estan_en_orden;
use tanda::periodos::generar_periodos;
use tanda::periodos::liquidar_periodo;
use tanda::periodos::siguiente_sin_liquidar;
use tanda::periodos::siguiente_sin_pago;
use tanda::periodos::son_validos;
use tanda::periodos::tomar_turno;
use tanda::texto::contiene;
use tanda::texto::copiar_cadenas;
use tanda::texto::escribir_decimal;
use tanda::texto::sin_repetidos;
use tanda::texto::todos_en;
use tanda::types::copiar_historiales;
use tanda::types::copiar_pagos;
use tanda::Categoria;
use tanda::Error;
use tanda::HistorialCuenta;
use tanda::Pago;
use tanda::Periodo;
use tanda::Tanda;
use tanda::Usuario;

const PRIMERO_DE_ENERO: u64 = 1_704_067_200_000_000_000;

fn texto(s: &str) -> String {
    String::from(s)
}

fn lista(v: &[&str]) -> Vec<String> {
    v.iter().map(|s| String::from(*s)).collect()
}

fn tanda_de(num_integrantes: u32, monto: u32, integrantes: &[&str]) -> Tanda {
    let mut t = Tanda::new(
        texto("0"),
        texto("ana.near"),
        texto("Ahorro"),
        num_integrantes,
        monto,
        7,
        PRIMERO_DE_ENERO,
    )
    .unwrap();
    for c in integrantes.iter() {
        t.agregar_integrante(texto(c));
    }
    t
}

#[test]
fn escribir_decimal_sin_ceros_a_la_izquierda() {
    assert_eq!(escribir_decimal(0), "0");
    assert_eq!(escribir_decimal(7), "7");
    assert_eq!(escribir_decimal(9), "9");
    assert_eq!(escribir_decimal(10), "10");
    assert_eq!(escribir_decimal(42), "42");
    assert_eq!(escribir_decimal(1_234_567_890), "1234567890");
    assert_eq!(escribir_decimal(u64::MAX), "18446744073709551615");
    for n in 0..300u64 {
        assert_eq!(escribir_decimal(n), n.to_string());
    }
}

#[test]
fn listas_de_cuentas() {
    let v = lista(&["a", "b", "c"]);
    assert!(contiene(&v, &texto("b")));
    assert!(!contiene(&v, &texto("d")));
    assert!(!contiene(&v, &texto("")));
    assert!(!contiene(&vec![], &texto("a")));
    assert_eq!(copiar_cadenas(&v), v);
    assert!(sin_repetidos(&v));
    assert!(sin_repetidos(&vec![]));
    assert!(!sin_repetidos(&lista(&["a", "b", "a"])));
    assert!(!sin_repetidos(&lista(&["a", "a"])));
    assert!(todos_en(&lista(&["c", "a", "a"]), &v));
    assert!(todos_en(&vec![], &v));
    assert!(todos_en(&vec![], &vec![]));
    assert!(!todos_en(&lista(&["a", "d"]), &v));
    assert!(!todos_en(&v, &vec![]));
}

#[test]
fn una_tanda_nueva_espera_a_sus_integrantes() {
    let t = tanda_de(3, 100, &[]);
    assert_eq!(t.id, "0");
    assert_eq!(t.creador, "ana.near");
    assert_eq!(t.nombre_tanda, "Ahorro");
    assert_eq!(t.num_integrantes, 3);
    assert_eq!(t.monto, 100);
    assert_eq!(t.periodo, 7);
    assert_eq!(t.fecha_inicio, "2024-01-01 00:00:00 UTC");
    assert_eq!(t.fecha_final, "2024-01-21 00:00:00 UTC");
    assert!(!t.activa);
    assert_eq!(t.estado, "Pendiente");
    assert!(t.integrantes.is_empty());
    assert!(t.es_valida());
    assert!(t.estado_coherente());
    assert!(t.fechas_coherentes());
    assert!(!t.llena());
    assert_eq!(t.copia(), t);
}

#[test]
fn tanda_new_valida_en_orden() {
    let nueva = |nombre: &str, n: u32, m: u32, p: u32| {
        Tanda::new(texto("0"), texto("ana.near"), texto(nombre), n, m, p, PRIMERO_DE_ENERO)
    };
    assert_eq!(nueva("", 0, 0, 0), Err(Error::NombreVacio));
    assert_eq!(nueva("x", 0, 0, 0), Err(Error::IntegrantesInsuficientes));
    assert_eq!(nueva("x", 1, 5, 5), Err(Error::IntegrantesInsuficientes));
    assert_eq!(nueva("x", 2, 0, 0), Err(Error::MontoInvalido));
    assert_eq!(nueva("x", 2, 1, 0), Err(Error::PeriodoInvalido));
    assert_eq!(nueva("x", u32::MAX, 1, u32::MAX), Err(Error::FechaFueraDeRango));
    assert!(nueva("x", 2, 1, 1).is_ok());
    assert_eq!(nueva("x", 2, 1, 1).unwrap().fecha_final, "2024-01-02 00:00:00 UTC");
    assert_eq!(Error::MontoInvalido.categoria(), Categoria::Validacion);
    assert_eq!(Error::PeriodoInvalido.categoria(), Categoria::Validacion);
}

#[test]
fn agregar_integrante_no_pasa_del_cupo_ni_repite() {
    let mut t = tanda_de(2, 100, &[]);
    t.agregar_integrante(texto("a"));
    assert_eq!(t.integrantes, lista(&["a"]));
    assert!(t.es_integrante(&texto("a")));
    assert!(!t.es_integrante(&texto("b")));
    t.agregar_integrante(texto("a"));
    assert_eq!(t.integrantes, lista(&["a"]));
    assert!(!t.llena());
    t.agregar_integrante(texto("b"));
    assert_eq!(t.integrantes, lista(&["a", "b"]));
    assert!(t.llena());
    t.agregar_integrante(texto("c"));
    assert_eq!(t.integrantes, lista(&["a", "b"]));
    assert!(t.es_valida());
}

#[test]
fn la_tanda_por_defecto_no_tiene_nada() {
    let t = Tanda::default();
    assert_eq!(t.id, "");
    assert_eq!(t.creador, "");
    assert_eq!(t.nombre_tanda, "");
    assert_eq!(t.num_integrantes, 0);
    assert_eq!(t.monto, 0);
    assert_eq!(t.periodo, 0);
    assert_eq!(t.fecha_inicio, "");
    assert_eq!(t.fecha_final, "");
    assert_eq!(t.estado, "");
    assert!(!t.activa);
    assert!(t.integrantes.is_empty());
    assert!(!t.es_valida());
}

#[test]
fn tanda_editada_deja_la_tanda_como_estaba() {
    let t = tanda_de(3, 100, &[]);
    let u = t.editada(Some(texto("Viaje")), Some(4), None, Some(30), None).unwrap();
    assert_eq!(t.nombre_tanda, "Ahorro");
    assert_eq!(u.nombre_tanda, "Viaje");
    assert_eq!(u.num_integrantes, 4);
    assert_eq!(u.monto, 100);
    assert_eq!(u.periodo, 30);
    assert_eq!(u.fecha_final, "2024-04-29 00:00:00 UTC");
    assert!(u.es_valida());
    assert_eq!(t.editada(None, Some(2), None, None, None), Err(Error::IntegrantesInsuficientes));
    assert_eq!(t.editada(None, None, None, None, None), Ok(t.copia()));
    let con = tanda_de(3, 100, &["a"]);
    let v = con.editada(Some(texto("Viaje")), Some(2), Some(1), Some(1), Some(texto("x"))).unwrap();
    assert_eq!(v.nombre_tanda, "Viaje");
    assert_eq!(v.num_integrantes, 3);
    assert_eq!(v.periodo, 7);
}

#[test]
fn periodo_nuevo_y_por_defecto() {
    let p = Periodo::new(texto("a"), texto("b"));
    assert_eq!(p.inicio, "a");
    assert_eq!(p.fin, "b");
    assert_eq!(p.usuario_en_turno, "");
    assert!(!p.pagos_completos);
    assert!(!p.tanda_pagada);
    assert_eq!(p.cantidad_recaudada, 0);
    assert!(p.integrantes_pagados.is_empty());
    assert!(!p.tiene_turno());
    assert!(!p.ha_pagado(&texto("a")));
    assert_eq!(p.copia(), p);
    let d = Periodo::default();
    assert_eq!(d, Periodo::new(texto(""), texto("")));
    assert!(p.es_valido(&tanda_de(2, 1, &[])));
}

#[test]
fn usuario_nuevo_y_sus_tandas() {
    let mut u = Usuario::new(texto("ana.near"));
    assert_eq!(u.cuenta, "ana.near");
    assert!(u.tandas_creadas.is_empty());
    assert!(u.tandas_inscritas.is_empty());
    u.anotar_tanda(texto("3"), true);
    u.anotar_tanda(texto("4"), false);
    u.anotar_tanda(texto("3"), true);
    assert_eq!(u.tandas_creadas, lista(&["3", "3"]));
    assert_eq!(u.tandas_inscritas, lista(&["4"]));
    assert_eq!(u.copia(), u);
    assert_eq!(Usuario::default(), Usuario::new(texto("")));
}

#[test]
fn pagos_e_historiales_se_copian() {
    let p = Pago::new(100, texto("2024-01-01 00:00:00 UTC"));
    assert_eq!(p.monto, 100);
    assert_eq!(p.fecha, "2024-01-01 00:00:00 UTC");
    assert_eq!(p.copia(), p);
    let pagos = vec![Pago::new(1, texto("a")), Pago::new(2, texto("b"))];
    assert_eq!(copiar_pagos(&pagos), pagos);
    let h = HistorialCuenta { cuenta: texto("ana.near"), pagos };
    assert_eq!(h.copia(), h);
    let hs = vec![h.copia(), HistorialCuenta { cuenta: texto("b"), pagos: vec![] }];
    assert_eq!(copiar_historiales(&hs), hs);
}

#[test]
fn anotar_pago_suma_y_marca_al_completar() {
    let t = tanda_de(2, 30, &["a", "b"]);
    let mut ps = generar_periodos(&t.fecha_inicio, t.periodo, 2).unwrap();
    assert!(son_validos(&ps, &t));
    assert_eq!(siguiente_sin_pago(&ps, &texto("a")), Some(0));
    assert_eq!(anotar_pago(&mut ps, &t, &texto("a")), Ok(0));
    assert_eq!(ps[0].cantidad_recaudada, 30);
    assert_eq!(ps[0].integrantes_pagados, lista(&["a"]));
    assert!(!ps[0].pagos_completos);
    assert!(ps[0].ha_pagado(&texto("a")));
    assert_eq!(siguiente_sin_pago(&ps, &texto("a")), Some(1));
    assert_eq!(siguiente_sin_pago(&ps, &texto("b")), Some(0));
    assert_eq!(anotar_pago(&mut ps, &t, &texto("b")), Ok(0));
    assert_eq!(ps[0].cantidad_recaudada, 60);
    assert!(ps[0].pagos_completos);
    assert_eq!(ps[1].cantidad_recaudada, 0);
    assert_eq!(anotar_pago(&mut ps, &t, &texto("b")), Ok(1));
    assert_eq!(anotar_pago(&mut ps, &t, &texto("b")), Err(Error::PagosCompletados));
    assert_eq!(siguiente_sin_pago(&ps, &texto("b")), None);
    assert_eq!(ps[1].cantidad_recaudada, 30);
    assert_eq!(ps[1].integrantes_pagados, lista(&["b"]));
    assert!(son_validos(&ps, &t));
    assert_eq!(copiar_periodos(&ps), ps);
}

#[test]
fn tomar_turno_y_liquidar() {
    let t = tanda_de(2, 30, &["a", "b"]);
    let mut ps = generar_periodos(&t.fecha_inicio, t.periodo, 2).unwrap();
    assert_eq!(tomar_turno(&mut ps, 0, &texto("a")), Err(Error::TurnoFueraDeRango));
    assert_eq!(tomar_turno(&mut ps, 3, &texto("a")), Err(Error::TurnoFueraDeRango));
    assert_eq!(liquidar_periodo(&mut ps, 0), Err(Error::PagosIncompletos));
    anotar_pago(&mut ps, &t, &texto("a")).unwrap();
    anotar_pago(&mut ps, &t, &texto("b")).unwrap();
    assert_eq!(liquidar_periodo(&mut ps, 0), Err(Error::SinUsuarioEnTurno));
    assert_eq!(tomar_turno(&mut ps, 1, &texto("a")), Ok(()));
    assert!(ps[0].tiene_turno());
    assert_eq!(tomar_turno(&mut ps, 1, &texto("b")), Err(Error::TurnoTomado));
    assert_eq!(ps[0].usuario_en_turno, "a");
    assert_eq!(siguiente_sin_liquidar(&ps), Some(0));
    let pago = liquidar_periodo(&mut ps, 0).unwrap();
    assert_eq!(pago.destinatario, "a");
    assert_eq!(pago.monto, 60);
    assert!(ps[0].tanda_pagada);
    assert_eq!(siguiente_sin_liquidar(&ps), Some(1));
    assert_eq!(liquidar_periodo(&mut ps, 0), Err(Error::YaPagada));
    assert_eq!(liquidar_periodo(&mut ps, 2), Err(Error::PeriodoInexistente));
    assert_eq!(liquidar_periodo(&mut ps, -5), Err(Error::PeriodoInexistente));
    assert!(son_validos(&ps, &t));
    assert_eq!(siguiente_sin_liquidar(&vec![]), None);
    assert_eq!(siguiente_sin_pago(&vec![], &texto("a")), None);
}

#[test]
fn las_fechas_en_orden_se_reconocen() {
    let t = tanda_de(3, 30, &[]);
    let mut ps = generar_periodos(&t.fecha_inicio, t.periodo, 3).unwrap();
    assert!(fechas_estan_en_orden(&ps, &t));
    ps[2].fin = texto("2024-01-22 00:00:00 UTC");
    assert!(!fechas_estan_en_orden(&ps, &t));
    assert!(!son_validos(&ps, &t));
    let otra = generar_periodos("2024-01-02 00:00:00 UTC", t.periodo, 3).unwrap();
    assert!(!fechas_estan_en_orden(&otra, &t));
    let mut sin_fecha = tanda_de(3, 30, &[]);
    sin_fecha.fecha_inicio = texto("nunca");
    assert!(!fechas_estan_en_orden(&vec![], &sin_fecha));
    assert!(fechas_estan_en_orden(&vec![], &t));
    assert!(!son_validos(&vec![], &t));
}

#[test]
fn cada_error_tiene_su_categoria() {
    let validacion = [
        Error::NombreVacio,
        Error::IntegrantesInsuficientes,
        Error::MontoInvalido,
        Error::PeriodoInvalido,
        Error::FormatoFecha,
        Error::FechaFueraDeRango,
        Error::TurnoFueraDeRango,
    ];
    for e in validacion.iter() {
        assert_eq!(e.categoria(), Categoria::Validacion);
    }
    let estado = [
        Error::YaActiva,
        Error::FaltanIntegrantes,
        Error::EnProgreso,
        Error::YaEsIntegrante,
        Error::TandaLlena,
        Error::NoEsIntegrante,
        Error::PeriodosNoInicializados,
        Error::TurnoTomado,
        Error::PagosIncompletos,
        Error::SinUsuarioEnTurno,
        Error::YaPagada,
    ];
    for e in estado.iter() {
        assert_eq!(e.categoria(), Categoria::Estado);
    }
    assert_eq!(Error::TandaInexistente.categoria(), Categoria::NoEncontrado);
    assert_eq!(Error::PeriodoInexistente.categoria(), Categoria::NoEncontrado);
    assert_eq!(Error::SinAutorizacion.categoria(), Categoria::NoAutorizado);
    assert_eq!(Error::DepositoInsuficiente.categoria(), Categoria::Pago);
    assert_eq!(Error::MontoIncorrecto.categoria(), Categoria::Pago);
    assert_eq!(Error::PagosCompletados.categoria(), Categoria::Agotado);
}
