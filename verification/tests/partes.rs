use tanda::one_near;
use tanda::periodos::generar_periodos;
use tanda::Categoria;
use tanda::Error;
use tanda::HistorialCuenta;
use tanda::Pago;
use tanda::Periodo;
use tanda::Tanda;
use tanda::TandaDapp;
use tanda::Usuario;

const PRIMERO_DE_ENERO: u64 = 1_704_067_200_000_000_000;

fn texto(s: &str) -> String {
    String::from(s)
}

fn tanda_cero() -> Tanda {
    let mut t = Tanda::new(texto("0"), texto("ana.near"), texto("Ahorro"), 2, 50, 7, PRIMERO_DE_ENERO).unwrap();
    t.agregar_integrante(texto("ana.near"));
    t.agregar_integrante(texto("beto.near"));
    t
}

fn periodos_de(t: &Tanda) -> Vec<Periodo> {
    generar_periodos(&t.fecha_inicio, t.periodo, t.num_integrantes as usize).unwrap()
}

fn sin_periodos() -> TandaDapp {
    TandaDapp::desde_partes(vec![tanda_cero()], vec![None], vec![], vec![vec![]]).unwrap()
}

#[test]
fn el_libro_se_rehace_de_sus_partes() {
    let mut dapp = TandaDapp::new();
    let clave = dapp
        .crear_tanda(texto("Ahorro"), 2, 50, 7, texto("ana.near"), one_near(), PRIMERO_DE_ENERO)
        .unwrap();
    dapp.agregar_integrante(&clave, texto("ana.near")).unwrap();
    dapp.agregar_integrante(&clave, texto("beto.near")).unwrap();
    dapp.agregar_integrante_pago(&clave, &texto("beto.near"), one_near() * 50, PRIMERO_DE_ENERO).unwrap();
    dapp.escoger_turno(&clave, &texto("ana.near"), 2).unwrap();
    let tandas = dapp.consultar_tandas_todas();
    let periodos = dapp.consultar_periodos(&clave).unwrap();
    let pagos = dapp.consultar_pagos();
    let (t, p, u, h) = dapp.en_partes();
    assert_eq!(t, tandas);
    assert_eq!(p, vec![Some(periodos)]);
    assert_eq!(u.len(), 2);
    assert_eq!(u[0].cuenta, "ana.near");
    assert_eq!(u[0].tandas_creadas, vec![texto("0")]);
    assert_eq!(u[0].tandas_inscritas, vec![texto("0")]);
    assert_eq!(u[1].tandas_inscritas, vec![texto("0")]);
    assert_eq!(h.len(), 1);
    assert_eq!(h[0], pagos[0].cuentas);
    let otra_vez = TandaDapp::desde_partes(t, p, u, h).unwrap();
    assert!(otra_vez.es_valido());
    assert_eq!(otra_vez.consultar_tandas_todas(), tandas);
    assert_eq!(otra_vez.consultar_pagos(), pagos);
    assert_eq!(otra_vez.validar_periodo(&clave, None, texto("beto.near")), Ok(1));
    assert_eq!(otra_vez.validar_periodo(&clave, None, texto("ana.near")), Ok(0));
}

#[test]
fn una_tanda_sin_periodos_no_admite_pagos_ni_turnos() {
    let mut dapp = sin_periodos();
    let clave = texto("0");
    let ana = texto("ana.near");
    assert!(dapp.consultar_periodos(&clave).is_none());
    assert_eq!(
        dapp.agregar_integrante_pago(&clave, &ana, one_near() * 50, PRIMERO_DE_ENERO),
        Err(Error::PeriodosNoInicializados)
    );
    assert_eq!(
        dapp.agregar_integrante_pago(&clave, &texto("nadie"), 1, PRIMERO_DE_ENERO),
        Err(Error::PeriodosNoInicializados)
    );
    assert_eq!(dapp.escoger_turno(&clave, &ana, 1), Err(Error::PeriodosNoInicializados));
    assert_eq!(dapp.escoger_turno(&clave, &texto("nadie"), 1), Err(Error::NoEsIntegrante));
    assert_eq!(dapp.pagar_tanda(&clave, 0), Err(Error::PeriodosNoInicializados));
    assert_eq!(dapp.validar_pago_tanda(&clave, 0), Err(Error::PeriodosNoInicializados));
    assert_eq!(dapp.validar_periodo(&clave, None, ana.clone()), Err(Error::PeriodosNoInicializados));
    assert_eq!(dapp.obtener_periodo_a_pagar(&clave), Err(Error::PeriodosNoInicializados));
    assert_eq!(dapp.regenerar_periodos(&clave, &ana), Err(Error::PeriodosNoInicializados));
    assert_eq!(dapp.regenerar_periodos(&clave, &texto("beto.near")), Err(Error::SinAutorizacion));
    assert_eq!(Error::PeriodosNoInicializados.categoria(), Categoria::Estado);
    assert!(dapp.es_valido());
}

#[test]
fn generar_periodos_inicia_la_tanda_que_no_los_tiene() {
    let mut dapp = sin_periodos();
    let clave = texto("0");
    assert_eq!(dapp.generar_periodos(&clave), Ok(()));
    let ps = dapp.consultar_periodos(&clave).unwrap();
    assert_eq!(ps, periodos_de(&tanda_cero()));
    assert_eq!(ps.len(), 2);
    assert_eq!(ps[1].fin, "2024-01-14 00:00:00 UTC");
    assert_eq!(
        dapp.agregar_integrante_pago(&clave, &texto("ana.near"), one_near() * 50, PRIMERO_DE_ENERO),
        Ok(0)
    );
    assert!(dapp.es_valido());
}

#[test]
fn activar_sin_periodos_solo_el_mismo_dia() {
    let mut dapp = sin_periodos();
    let clave = texto("0");
    let ana = texto("ana.near");
    assert_eq!(
        dapp.activar_tanda(&clave, &ana, PRIMERO_DE_ENERO + 86_400_000_000_000),
        Err(Error::PeriodosNoInicializados)
    );
    assert!(!dapp.consultar_tanda(&clave).unwrap().activa);
    assert_eq!(dapp.consultar_tanda(&clave).unwrap().fecha_inicio, "2024-01-01 00:00:00 UTC");
    assert_eq!(dapp.activar_tanda(&clave, &ana, PRIMERO_DE_ENERO + 5), Ok(()));
    assert!(dapp.consultar_tanda(&clave).unwrap().activa);
}

#[test]
fn editar_sin_periodos_no_los_crea() {
    let t = Tanda::new(texto("0"), texto("ana.near"), texto("Ahorro"), 3, 50, 7, PRIMERO_DE_ENERO).unwrap();
    let mut dapp = TandaDapp::desde_partes(vec![t], vec![None], vec![], vec![vec![]]).unwrap();
    let r = dapp.editar_tanda(&texto("0"), &texto("ana.near"), None, Some(5), None, None, None).unwrap();
    assert_eq!(r.num_integrantes, 5);
    assert_eq!(r.fecha_final, "2024-02-04 00:00:00 UTC");
    assert!(dapp.consultar_periodos(&texto("0")).is_none());
    assert!(dapp.es_valido());
}

#[test]
fn partes_en_desorden_no_hacen_libro() {
    let t = tanda_cero();
    let ps = periodos_de(&t);
    assert!(TandaDapp::desde_partes(vec![tanda_cero()], vec![Some(periodos_de(&t))], vec![], vec![vec![]]).is_some());
    assert!(TandaDapp::desde_partes(vec![tanda_cero()], vec![], vec![], vec![vec![]]).is_none());
    assert!(TandaDapp::desde_partes(vec![tanda_cero()], vec![None], vec![], vec![]).is_none());
    assert!(TandaDapp::desde_partes(vec![], vec![None], vec![], vec![]).is_none());
    assert!(TandaDapp::desde_partes(vec![], vec![], vec![], vec![]).is_some());

    let mut otra_clave = tanda_cero();
    otra_clave.id = texto("1");
    assert!(TandaDapp::desde_partes(vec![otra_clave], vec![None], vec![], vec![vec![]]).is_none());
    let mut con_ceros = tanda_cero();
    con_ceros.id = texto("00");
    assert!(TandaDapp::desde_partes(vec![con_ceros], vec![None], vec![], vec![vec![]]).is_none());

    let mut repetido = tanda_cero();
    repetido.integrantes = vec![texto("ana.near"), texto("ana.near")];
    assert!(TandaDapp::desde_partes(vec![repetido], vec![None], vec![], vec![vec![]]).is_none());
    let mut de_mas = tanda_cero();
    de_mas.integrantes.push(texto("caro.near"));
    assert!(TandaDapp::desde_partes(vec![de_mas], vec![None], vec![], vec![vec![]]).is_none());
    let mut estado = tanda_cero();
    estado.estado = texto("Activa");
    assert!(TandaDapp::desde_partes(vec![estado], vec![None], vec![], vec![vec![]]).is_none());
    let mut fin = tanda_cero();
    fin.fecha_final = texto("2024-01-15 00:00:00 UTC");
    assert!(TandaDapp::desde_partes(vec![fin], vec![None], vec![], vec![vec![]]).is_none());
    assert!(TandaDapp::desde_partes(vec![Tanda::default()], vec![None], vec![], vec![vec![]]).is_none());

    let mut cortos = periodos_de(&t);
    cortos.pop();
    assert!(TandaDapp::desde_partes(vec![tanda_cero()], vec![Some(cortos)], vec![], vec![vec![]]).is_none());
    let mut corridos = periodos_de(&t);
    corridos[1].inicio = texto("2024-01-07 00:00:00 UTC");
    assert!(TandaDapp::desde_partes(vec![tanda_cero()], vec![Some(corridos)], vec![], vec![vec![]]).is_none());
    let mut marcado = periodos_de(&t);
    marcado[0].pagos_completos = true;
    assert!(TandaDapp::desde_partes(vec![tanda_cero()], vec![Some(marcado)], vec![], vec![vec![]]).is_none());
    let mut descuadrado = periodos_de(&t);
    descuadrado[0].cantidad_recaudada = 50;
    assert!(TandaDapp::desde_partes(vec![tanda_cero()], vec![Some(descuadrado)], vec![], vec![vec![]]).is_none());
    let mut ajeno = periodos_de(&t);
    ajeno[0].integrantes_pagados = vec![texto("zoe.near")];
    ajeno[0].cantidad_recaudada = 50;
    assert!(TandaDapp::desde_partes(vec![tanda_cero()], vec![Some(ajeno)], vec![], vec![vec![]]).is_none());
    let mut turno_ajeno = periodos_de(&t);
    turno_ajeno[0].usuario_en_turno = texto("zoe.near");
    assert!(TandaDapp::desde_partes(vec![tanda_cero()], vec![Some(turno_ajeno)], vec![], vec![vec![]]).is_none());
    let mut pagado = periodos_de(&t);
    pagado[0].tanda_pagada = true;
    assert!(TandaDapp::desde_partes(vec![tanda_cero()], vec![Some(pagado)], vec![], vec![vec![]]).is_none());

    let dos = vec![Usuario::new(texto("ana.near")), Usuario::new(texto("ana.near"))];
    assert!(TandaDapp::desde_partes(vec![tanda_cero()], vec![None], dos, vec![vec![]]).is_none());
    let historial = vec![
        HistorialCuenta { cuenta: texto("ana.near"), pagos: vec![] },
        HistorialCuenta { cuenta: texto("ana.near"), pagos: vec![Pago::new(50, texto("hoy"))] },
    ];
    assert!(TandaDapp::desde_partes(vec![tanda_cero()], vec![None], vec![], vec![historial]).is_none());
    assert!(TandaDapp::desde_partes(vec![tanda_cero()], vec![Some(ps)], vec![Usuario::default()], vec![vec![]]).is_some());
}

#[test]
fn un_periodo_pagado_en_orden_hace_libro() {
    let t = tanda_cero();
    let mut ps = periodos_de(&t);
    ps[0].integrantes_pagados = vec![texto("beto.near"), texto("ana.near")];
    ps[0].cantidad_recaudada = 100;
    ps[0].pagos_completos = true;
    ps[0].usuario_en_turno = texto("beto.near");
    ps[0].tanda_pagada = true;
    let mut dapp = TandaDapp::desde_partes(vec![t], vec![Some(ps)], vec![], vec![vec![]]).unwrap();
    assert_eq!(dapp.pagar_tanda(&texto("0"), 0), Err(Error::YaPagada));
    assert_eq!(dapp.obtener_periodo_a_pagar(&texto("0")), Ok(1));
    assert_eq!(dapp.validar_pago_tanda(&texto("0"), 0), Ok(true));
}
