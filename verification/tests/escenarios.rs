use tanda::one_near;
use tanda::Categoria;
use tanda::Error;
use tanda::TandaDapp;

const PRIMERO_DE_ENERO: u64 = 1_704_067_200_000_000_000;

fn texto(s: &str) -> String {
    String::from(s)
}

fn tanda_de_tres() -> (TandaDapp, String) {
    let mut dapp = TandaDapp::new();
    let clave = dapp
        .crear_tanda(texto("Ahorro"), 3, 100, 7, texto("ana.near"), one_near(), PRIMERO_DE_ENERO)
        .unwrap();
    (dapp, clave)
}

fn tanda_llena() -> (TandaDapp, String) {
    let (mut dapp, clave) = tanda_de_tres();
    dapp.agregar_integrante(&clave, texto("ana.near")).unwrap();
    dapp.agregar_integrante(&clave, texto("beto.near")).unwrap();
    dapp.agregar_integrante(&clave, texto("caro.near")).unwrap();
    (dapp, clave)
}

#[test]
fn una_tanda_nueva_tiene_un_periodo_por_integrante() {
    let (dapp, clave) = tanda_de_tres();
    assert_eq!(clave, "0");
    let tanda = dapp.consultar_tanda(&clave).unwrap();
    assert_eq!(tanda.fecha_inicio, "2024-01-01 00:00:00 UTC");
    assert_eq!(tanda.fecha_final, "2024-01-21 00:00:00 UTC");
    assert_eq!(tanda.estado, "Pendiente");
    assert!(!tanda.activa);
    assert_eq!(tanda.creador, "ana.near");
    assert!(tanda.integrantes.is_empty());
    let periodos = dapp.consultar_periodos(&clave).unwrap();
    assert_eq!(periodos.len(), 3);
    assert_eq!(periodos[0].inicio, "2024-01-01 00:00:00 UTC");
    assert_eq!(periodos[0].fin, "2024-01-07 00:00:00 UTC");
    assert_eq!(periodos[1].inicio, "2024-01-08 00:00:00 UTC");
    assert_eq!(periodos[1].fin, "2024-01-14 00:00:00 UTC");
    assert_eq!(periodos[2].inicio, "2024-01-15 00:00:00 UTC");
    assert_eq!(periodos[2].fin, "2024-01-21 00:00:00 UTC");
    for p in periodos.iter() {
        assert_eq!(p.cantidad_recaudada, 0);
        assert!(!p.pagos_completos);
        assert!(!p.tanda_pagada);
        assert_eq!(p.usuario_en_turno, "");
    }
}

#[test]
fn tres_pagos_completan_el_primer_periodo_y_se_paga_una_vez() {
    let (mut dapp, clave) = tanda_llena();
    let cien = one_near() * 100;
    assert_eq!(dapp.agregar_integrante_pago(&clave, &texto("caro.near"), cien, PRIMERO_DE_ENERO), Ok(0));
    assert_eq!(dapp.agregar_integrante_pago(&clave, &texto("ana.near"), cien, PRIMERO_DE_ENERO), Ok(0));
    assert_eq!(dapp.validar_pago_tanda(&clave, 0), Ok(false));
    assert_eq!(dapp.agregar_integrante_pago(&clave, &texto("beto.near"), cien, PRIMERO_DE_ENERO), Ok(0));
    let periodos = dapp.consultar_periodos(&clave).unwrap();
    assert!(periodos[0].pagos_completos);
    assert_eq!(periodos[0].cantidad_recaudada, 300);
    assert_eq!(dapp.validar_pago_tanda(&clave, 0), Ok(true));
    assert_eq!(dapp.pagar_tanda(&clave, 0), Err(Error::SinUsuarioEnTurno));
    dapp.escoger_turno(&clave, &texto("beto.near"), 1).unwrap();
    assert_eq!(dapp.obtener_periodo_a_pagar(&clave), Ok(0));
    let pago = dapp.pagar_tanda(&clave, 0).unwrap();
    assert_eq!(pago.destinatario, "beto.near");
    assert_eq!(pago.monto, 300);
    assert!(dapp.consultar_periodos(&clave).unwrap()[0].tanda_pagada);
    assert_eq!(dapp.obtener_periodo_a_pagar(&clave), Ok(1));
    let repetido = dapp.pagar_tanda(&clave, 0);
    assert_eq!(repetido, Err(Error::YaPagada));
    assert_eq!(Error::YaPagada.categoria(), Categoria::Estado);
}

#[test]
fn crear_rechaza_datos_invalidos_en_orden() {
    let mut dapp = TandaDapp::new();
    let r = dapp.crear_tanda(texto("Ahorro"), 1, 100, 7, texto("ana.near"), one_near(), PRIMERO_DE_ENERO);
    assert_eq!(r, Err(Error::IntegrantesInsuficientes));
    assert_eq!(Error::IntegrantesInsuficientes.categoria(), Categoria::Validacion);
    let r = dapp.crear_tanda(texto(""), 3, 100, 7, texto("ana.near"), one_near(), PRIMERO_DE_ENERO);
    assert_eq!(r, Err(Error::NombreVacio));
    assert_eq!(Error::NombreVacio.categoria(), Categoria::Validacion);
    let r = dapp.crear_tanda(texto(""), 1, 0, 0, texto("ana.near"), one_near() - 1, PRIMERO_DE_ENERO);
    assert_eq!(r, Err(Error::DepositoInsuficiente));
    assert_eq!(Error::DepositoInsuficiente.categoria(), Categoria::Pago);
    let r = dapp.crear_tanda(texto(""), 1, 0, 0, texto("ana.near"), one_near(), PRIMERO_DE_ENERO);
    assert_eq!(r, Err(Error::NombreVacio));
    let r = dapp.crear_tanda(texto("x"), 1, 0, 0, texto("ana.near"), one_near(), PRIMERO_DE_ENERO);
    assert_eq!(r, Err(Error::IntegrantesInsuficientes));
    let r = dapp.crear_tanda(texto("x"), 2, 0, 0, texto("ana.near"), one_near(), PRIMERO_DE_ENERO);
    assert_eq!(r, Err(Error::MontoInvalido));
    let r = dapp.crear_tanda(texto("x"), 2, 1, 0, texto("ana.near"), one_near(), PRIMERO_DE_ENERO);
    assert_eq!(r, Err(Error::PeriodoInvalido));
    assert!(dapp.consultar_tandas_todas().is_empty());
    assert!(dapp.consultar_usuarios().is_empty());
    let r = dapp.crear_tanda(texto("x"), 2, 1, 1, texto("ana.near"), one_near(), PRIMERO_DE_ENERO);
    assert_eq!(r, Ok(texto("0")));
}

#[test]
fn un_pago_por_otro_monto_no_cambia_lo_recaudado() {
    let (mut dapp, clave) = tanda_llena();
    let r = dapp.agregar_integrante_pago(&clave, &texto("ana.near"), one_near() * 99, PRIMERO_DE_ENERO);
    assert_eq!(r, Err(Error::MontoIncorrecto));
    assert_eq!(Error::MontoIncorrecto.categoria(), Categoria::Pago);
    let r = dapp.agregar_integrante_pago(&clave, &texto("ana.near"), 100, PRIMERO_DE_ENERO);
    assert_eq!(r, Err(Error::MontoIncorrecto));
    let periodos = dapp.consultar_periodos(&clave).unwrap();
    assert_eq!(periodos[0].cantidad_recaudada, 0);
    assert!(periodos[0].integrantes_pagados.is_empty());
    assert!(dapp.consultar_integrante_pagos(&clave, None, texto("ana.near")).is_empty());
}
