//! What holds of the ledger whatever is asked of it, in whatever order.

use crate::busqueda::lema_primero_que;
use crate::busqueda::lema_primero_unico;
use crate::busqueda::primero_que;
use crate::date_handling::dia_siguiente;
use crate::date_handling::inicio_del_dia;
use crate::date_handling::instante_de_fecha;
use crate::date_handling::texto_de_instante;
use crate::error::Error;
use crate::modelo::TandaDappV;
use crate::modelo::con_clave;
use crate::modelo::historial_con_pago;
use crate::modelo::historial_de;
use crate::periodos::contiguos;
use crate::periodos::falta_pago_de;
use crate::periodos::lema_pago_valido;
use crate::periodos::lema_periodos_contiguos;
use crate::periodos::lema_ventanas_contiguas;
use crate::periodos::periodo_a_contribuir;
use crate::periodos::periodos_regenerados;
use crate::periodos::ventana_representable;
use crate::periodos::ventanas;
use crate::spec_one_near;
use crate::texto::decimal;
use crate::texto::lema_decimal_inyectiva;
use crate::types::PagoV;
use crate::types::dias_hasta_el_final;
use vstd::prelude::*;

verus! {

/// In every state of the ledger, a group that has its cycles has one for each
/// of its places, and they follow one another without a gap from the first
/// day of the group on.
pub proof fn lema_ciclos_de_todo_grupo(v: TandaDappV, i: int)
    requires
        v.valido(),
        0 <= i < v.tandas.len(),
        v.periodos_tanda[i] is Some,
    ensures
        v.periodos_tanda[i].unwrap().len() == v.tandas[i].num_integrantes,
        v.periodos_tanda[i].unwrap()[0].inicio == v.tandas[i].fecha_inicio,
        contiguos(v.periodos_tanda[i].unwrap()),
{
    assert(v.grupo_valido(i));
    lema_periodos_contiguos(v.periodos_tanda[i].unwrap(), v.tandas[i]);
}

/// A group that was created has its cycles: one for each of its places,
/// following one another without a gap from its first day on.
pub proof fn lema_alta_con_ciclos(
    v: TandaDappV,
    nombre: Seq<char>,
    num_integrantes: u32,
    monto: u32,
    periodo: u32,
    solicitante: Seq<char>,
    deposito: u128,
    marca_de_tiempo: u64,
)
    requires
        v.alta(nombre, num_integrantes, monto, periodo, solicitante, deposito, marca_de_tiempo)
            is Ok,
    ensures
        ({
            let w = v.alta(
                nombre,
                num_integrantes,
                monto,
                periodo,
                solicitante,
                deposito,
                marca_de_tiempo,
            ).unwrap();
            &&& w.tandas.len() == v.tandas.len() + 1
            &&& w.tandas.last().num_integrantes == num_integrantes
            &&& w.periodos_tanda.last() is Some
            &&& w.periodos_tanda.last().unwrap().len() == num_integrantes
            &&& w.periodos_tanda.last().unwrap()[0].inicio == w.tandas.last().fecha_inicio
            &&& contiguos(w.periodos_tanda.last().unwrap())
        }),
{
    let w = v.alta(
        nombre,
        num_integrantes,
        monto,
        periodo,
        solicitante,
        deposito,
        marca_de_tiempo,
    ).unwrap();
    let t = w.tandas.last();
    let ps = w.periodos_tanda.last().unwrap();
    let f = ventanas(t.fecha_inicio, periodo, num_integrantes as nat).unwrap();
    lema_ventanas_contiguas(t.fecha_inicio, periodo, num_integrantes as nat);
    assert forall|k: int| #![trigger ps[k]] 0 <= k && k + 1 < ps.len() implies dia_siguiente(
        ps[k].fin,
        ps[k + 1].inicio,
    ) by {
        assert(ps[k].fin == f[k].fin);
        assert(ps[k + 1].inicio == f[k + 1].inicio);
        assert(dia_siguiente(f[k].fin, f[k + 1].inicio));
    }
}

/// In every state of the ledger, a cycle is marked complete exactly if it has
/// collected the amount of the group from every place, from as many accounts
/// as the group has places.
pub proof fn lema_completos_si_y_solo_si(v: TandaDappV, i: int, k: int)
    requires
        v.valido(),
        0 <= i < v.tandas.len(),
        v.periodos_tanda[i] is Some,
        0 <= k < v.periodos_tanda[i].unwrap().len(),
    ensures
        v.periodos_tanda[i].unwrap()[k].pagos_completos <==> (v.periodos_tanda[i].unwrap()[k].cantidad_recaudada
            == v.tandas[i].monto as int * v.tandas[i].num_integrantes as int
            && v.periodos_tanda[i].unwrap()[k].integrantes_pagados.len()
            == v.tandas[i].num_integrantes),
{
    assert(v.grupo_valido(i));
    assert(v.periodos_tanda[i].unwrap()[k].valido(v.tandas[i]));
}

/// Two contributions of one account to one group, one right after the other,
/// go to two cycles: the second to a later cycle than the first, namely the
/// next one that the account still owed, and the first cycle is counted once.
pub proof fn lema_segundo_pago_avanza(
    v: TandaDappV,
    clave: Seq<char>,
    cuenta: Seq<char>,
    deposito: u128,
    primera_marca: u64,
    segunda_marca: u64,
)
    requires
        v.valido(),
        v.contribucion(clave, cuenta, deposito, primera_marca) is Ok,
        v.contribucion(clave, cuenta, deposito, primera_marca).unwrap().contribucion(
            clave,
            cuenta,
            deposito,
            segunda_marca,
        ) is Ok,
    ensures
        ({
            let i = v.indice_de(clave);
            let t = v.tandas[i];
            let w = v.contribucion(clave, cuenta, deposito, primera_marca).unwrap();
            let x = w.contribucion(clave, cuenta, deposito, segunda_marca).unwrap();
            let ps = v.periodos_tanda[i].unwrap();
            let qs = w.periodos_tanda[i].unwrap();
            let rs = x.periodos_tanda[i].unwrap();
            let k1 = periodo_a_contribuir(ps, cuenta);
            let k2 = periodo_a_contribuir(qs, cuenta);
            &&& 0 <= k1 < k2 < ps.len()
            &&& forall|j: int| k1 < j < k2 ==> (#[trigger] ps[j]).ha_pagado(cuenta)
            &&& !ps[k2].ha_pagado(cuenta)
            &&& rs.len() == ps.len()
            &&& rs[k1] == ps[k1].con_pago(cuenta, t)
            &&& rs[k2] == ps[k2].con_pago(cuenta, t)
            &&& rs[k1].integrantes_pagados.no_duplicates()
            &&& rs[k1].cantidad_recaudada == ps[k1].cantidad_recaudada + t.monto
            &&& forall|j: int|
                0 <= j < ps.len() && j != k1 && j != k2 ==> #[trigger] rs[j] == ps[j]
        }),
{
    let i = v.indice_de(clave);
    let t = v.tandas[i];
    let w = v.contribucion(clave, cuenta, deposito, primera_marca).unwrap();
    let ps = v.periodos_tanda[i].unwrap();
    let qs = w.periodos_tanda[i].unwrap();
    let k1 = periodo_a_contribuir(ps, cuenta);
    let k2 = periodo_a_contribuir(qs, cuenta);
    lema_primero_que(v.tandas, con_clave(clave));
    assert(v.grupo_valido(i));
    assert(w.indice_de(clave) == i);
    lema_primero_que(ps, falta_pago_de(cuenta));
    lema_primero_que(qs, falta_pago_de(cuenta));
    assert(ps[k1].valido(t));
    lema_pago_valido(ps[k1], t, cuenta);
    assert(qs[k1] == ps[k1].con_pago(cuenta, t));
    assert(qs[k1].integrantes_pagados.last() == cuenta);
    assert(qs[k1].ha_pagado(cuenta));
    assert forall|j: int| 0 <= j < k1 implies (#[trigger] qs[j]).ha_pagado(cuenta) by {
        assert(qs[j] == ps[j]);
        assert(!falta_pago_de(cuenta)(ps[j]));
    }
    assert(k2 > k1) by {
        if k2 <= k1 {
            assert(falta_pago_de(cuenta)(qs[k2]));
        }
    }
    assert(qs[k2] == ps[k2]);
    assert forall|j: int| k1 < j < k2 implies (#[trigger] ps[j]).ha_pagado(cuenta) by {
        assert(qs[j] == ps[j]);
        assert(!falta_pago_de(cuenta)(qs[j]));
    }
}

/// Joining never gives a group more members than it has places: a join that
/// succeeds adds one member and stays within the places, and to a group whose
/// places are all taken no join succeeds.
pub proof fn lema_ingreso_respeta_cupo(v: TandaDappV, clave: Seq<char>, solicitante: Seq<char>)
    requires
        v.valido(),
    ensures
        match v.ingreso(clave, solicitante) {
            Ok(w) => {
                let i = v.indice_de(clave);
                &&& !v.tandas[i].llena()
                &&& w.tandas[i].integrantes == v.tandas[i].integrantes.push(solicitante)
                &&& w.tandas[i].integrantes.len() <= w.tandas[i].num_integrantes
                &&& w.tandas[i].num_integrantes == v.tandas[i].num_integrantes
            },
            Err(e) => v.indice_de(clave) >= 0 && v.tandas[v.indice_de(clave)].llena() ==> e
                == Error::TandaLlena || e == Error::YaEsIntegrante,
        },
        forall|i: int|
            0 <= i < v.tandas.len() ==> (#[trigger] v.tandas[i]).integrantes.len()
                <= v.tandas[i].num_integrantes,
{
    lema_primero_que(v.tandas, con_clave(clave));
    assert forall|i: int| 0 <= i < v.tandas.len() implies (#[trigger] v.tandas[i]).integrantes.len()
        <= v.tandas[i].num_integrantes by {
        assert(v.grupo_valido(i));
    }
}

/// A payout succeeds only for a cycle to which every member has contributed
/// and whose turn somebody holds, and it succeeds once: asked again for the
/// same cycle, it fails with `YaPagada`.
pub proof fn lema_liquidacion_unica(v: TandaDappV, clave: Seq<char>, indice: int)
    requires
        v.valido(),
        v.liquidacion(clave, indice) is Ok,
    ensures
        ({
            let i = v.indice_de(clave);
            let ps = v.periodos_tanda[i].unwrap();
            &&& 0 <= indice < ps.len()
            &&& ps[indice].pagos_completos
            &&& ps[indice].tiene_turno()
            &&& !ps[indice].tanda_pagada
            &&& v.liquidacion(clave, indice).unwrap().periodos_tanda[i].unwrap()[indice].tanda_pagada
            &&& v.liquidacion(clave, indice).unwrap().liquidacion(clave, indice) == Err::<
                TandaDappV,
                Error,
            >(Error::YaPagada)
        }),
{
    lema_primero_que(v.tandas, con_clave(clave));
}

/// Computing the dates of the cycles of a group anew changes dates and
/// nothing else: every cycle keeps its turn holder, what it has collected,
/// who has contributed to it and whether it is complete and paid out, and
/// the groups, the accounts and the histories stay as they are.
pub proof fn lema_regeneracion_conserva(v: TandaDappV, clave: Seq<char>, solicitante: Seq<char>)
    requires
        v.valido(),
        v.regeneracion(clave, solicitante) is Ok,
    ensures
        ({
            let i = v.indice_de(clave);
            let w = v.regeneracion(clave, solicitante).unwrap();
            let ps = v.periodos_tanda[i].unwrap();
            let qs = w.periodos_tanda[i].unwrap();
            &&& w.tandas == v.tandas
            &&& w.usuarios == v.usuarios
            &&& w.pagos == v.pagos
            &&& w.periodos_tanda.len() == v.periodos_tanda.len()
            &&& forall|j: int|
                0 <= j < v.periodos_tanda.len() && j != i ==> #[trigger] w.periodos_tanda[j]
                    == v.periodos_tanda[j]
            &&& qs.len() == ps.len()
            &&& forall|k: int|
                #![trigger qs[k]]
                0 <= k < ps.len() ==> {
                    &&& qs[k].usuario_en_turno == ps[k].usuario_en_turno
                    &&& qs[k].cantidad_recaudada == ps[k].cantidad_recaudada
                    &&& qs[k].integrantes_pagados == ps[k].integrantes_pagados
                    &&& qs[k].pagos_completos == ps[k].pagos_completos
                    &&& qs[k].tanda_pagada == ps[k].tanda_pagada
                }
        }),
{
    lema_primero_que(v.tandas, con_clave(clave));
}

/// No key is given twice: two groups of the ledger have different keys.
pub proof fn lema_claves_distintas(v: TandaDappV, i: int, j: int)
    requires
        v.valido(),
        0 <= i < v.tandas.len(),
        0 <= j < v.tandas.len(),
        i != j,
    ensures
        v.tandas[i].id != v.tandas[j].id,
{
    assert(v.grupo_valido(i));
    assert(v.grupo_valido(j));
    if v.tandas[i].id == v.tandas[j].id {
        lema_decimal_inyectiva(i as nat, j as nat);
    }
}

/// Looking a group up by its key finds that group.
pub proof fn lema_clave_encuentra(v: TandaDappV, i: int)
    requires
        v.valido(),
        0 <= i < v.tandas.len(),
    ensures
        v.indice_de(v.tandas[i].id) == i,
{
    let clave = v.tandas[i].id;
    lema_primero_que(v.tandas, con_clave(clave));
    let k = v.indice_de(clave);
    assert(con_clave(clave)(v.tandas[i]));
    if k != i {
        lema_claves_distintas(v, i, k);
    }
}

/// The key of a group that is created is one that no group had.
pub proof fn lema_alta_con_clave_nueva(
    v: TandaDappV,
    nombre: Seq<char>,
    num_integrantes: u32,
    monto: u32,
    periodo: u32,
    solicitante: Seq<char>,
    deposito: u128,
    marca_de_tiempo: u64,
)
    requires
        v.valido(),
        v.alta(nombre, num_integrantes, monto, periodo, solicitante, deposito, marca_de_tiempo)
            is Ok,
    ensures
        v.indice_de(
            v.alta(
                nombre,
                num_integrantes,
                monto,
                periodo,
                solicitante,
                deposito,
                marca_de_tiempo,
            ).unwrap().tandas.last().id,
        ) == -1,
{
    let clave = decimal(v.tandas.len());
    lema_primero_que(v.tandas, con_clave(clave));
    let k = v.indice_de(clave);
    if k >= 0 {
        assert(v.grupo_valido(k));
        lema_decimal_inyectiva(k as nat, v.tandas.len());
    }
}

/// Once a group runs, or once somebody has joined it, an edit changes its
/// name and nothing else: its places, its amount, its cycle length, its
/// dates and its cycles stay as they are.
pub proof fn lema_edicion_solo_de_nombre(
    v: TandaDappV,
    clave: Seq<char>,
    solicitante: Seq<char>,
    nombre: Option<Seq<char>>,
    num_integrantes: Option<u32>,
    monto: Option<u32>,
    periodo: Option<u32>,
    fecha_inicio: Option<Seq<char>>,
)
    requires
        v.valido(),
        v.edicion(clave, solicitante, nombre, num_integrantes, monto, periodo, fecha_inicio)
            is Ok,
        !v.tandas[v.indice_de(clave)].editable(),
    ensures
        ({
            let i = v.indice_de(clave);
            let w = v.edicion(
                clave,
                solicitante,
                nombre,
                num_integrantes,
                monto,
                periodo,
                fecha_inicio,
            ).unwrap();
            &&& w.tandas[i] == v.tandas[i].con_nombre(nombre)
            &&& w.tandas[i].num_integrantes == v.tandas[i].num_integrantes
            &&& w.tandas[i].monto == v.tandas[i].monto
            &&& w.tandas[i].periodo == v.tandas[i].periodo
            &&& w.tandas[i].fecha_inicio == v.tandas[i].fecha_inicio
            &&& w.tandas[i].fecha_final == v.tandas[i].fecha_final
            &&& w.periodos_tanda == v.periodos_tanda
            &&& w.pagos == v.pagos
            &&& w.usuarios == v.usuarios
        }),
{
    lema_primero_que(v.tandas, con_clave(clave));
}

/// In every state of the ledger, whoever has contributed to a cycle of a
/// group, and whoever holds its turn, is a member of the group, and nobody is
/// counted twice in a cycle.
pub proof fn lema_pagados_son_integrantes(v: TandaDappV, i: int, k: int)
    requires
        v.valido(),
        0 <= i < v.tandas.len(),
        v.periodos_tanda[i] is Some,
        0 <= k < v.periodos_tanda[i].unwrap().len(),
    ensures
        v.periodos_tanda[i].unwrap()[k].integrantes_pagados.no_duplicates(),
        forall|c: Seq<char>| #[trigger]
            v.periodos_tanda[i].unwrap()[k].ha_pagado(c) ==> v.tandas[i].es_integrante(c),
        v.periodos_tanda[i].unwrap()[k].tiene_turno() ==> v.tandas[i].es_integrante(
            v.periodos_tanda[i].unwrap()[k].usuario_en_turno,
        ),
        v.periodos_tanda[i].unwrap()[k].cantidad_recaudada == v.tandas[i].monto
            * v.periodos_tanda[i].unwrap()[k].integrantes_pagados.len(),
{
    assert(v.grupo_valido(i));
    assert(v.periodos_tanda[i].unwrap()[k].valido(v.tandas[i]));
}

/// A contribution is added to the history and nothing is taken from it: the
/// account that contributes has one more payment, of the amount of the group
/// and dated today, after those that it had, and every other account has the
/// payments that it had.
pub proof fn lema_contribucion_en_historial(
    v: TandaDappV,
    clave: Seq<char>,
    cuenta: Seq<char>,
    deposito: u128,
    marca_de_tiempo: u64,
    otra: Seq<char>,
)
    requires
        v.valido(),
        v.contribucion(clave, cuenta, deposito, marca_de_tiempo) is Ok,
        otra != cuenta,
    ensures
        ({
            let w = v.contribucion(clave, cuenta, deposito, marca_de_tiempo).unwrap();
            let pago = PagoV {
                monto: v.tandas[v.indice_de(clave)].monto,
                fecha: texto_de_instante(inicio_del_dia(marca_de_tiempo)).unwrap(),
            };
            &&& w.pagos_de(clave, cuenta) == v.pagos_de(clave, cuenta).push(pago)
            &&& w.pagos_de(clave, otra) == v.pagos_de(clave, otra)
            &&& deposito == spec_one_near() * pago.monto
        }),
{
    let i = v.indice_de(clave);
    let w = v.contribucion(clave, cuenta, deposito, marca_de_tiempo).unwrap();
    let pago = PagoV {
        monto: v.tandas[i].monto,
        fecha: texto_de_instante(inicio_del_dia(marca_de_tiempo)).unwrap(),
    };
    lema_primero_que(v.tandas, con_clave(clave));
    assert(v.grupo_valido(i));
    assert(w.indice_de(clave) == i);
    let hs = v.pagos[i];
    let gs = w.pagos[i];
    assert(gs == historial_con_pago(hs, cuenta, pago));
    lema_primero_que(hs, historial_de(cuenta));
    lema_primero_que(hs, historial_de(otra));
    let j = primero_que(hs, historial_de(cuenta));
    let m = primero_que(hs, historial_de(otra));
    if j >= 0 {
        assert(historial_de(cuenta)(gs[j]));
        assert forall|k: int| 0 <= k < j implies !historial_de(cuenta)(#[trigger] gs[k]) by {
            assert(gs[k] == hs[k]);
        }
        lema_primero_unico(gs, historial_de(cuenta), j);
        if m >= 0 {
            assert(gs[m] == hs[m]);
            assert forall|k: int| 0 <= k < m implies !historial_de(otra)(#[trigger] gs[k]) by {
                assert(gs[k].cuenta == hs[k].cuenta);
            }
            lema_primero_unico(gs, historial_de(otra), m);
        } else {
            assert forall|k: int| 0 <= k < gs.len() implies !historial_de(otra)(#[trigger] gs[k]) by {
                assert(gs[k].cuenta == hs[k].cuenta);
            }
            lema_primero_unico(gs, historial_de(otra), -1);
        }
    } else {
        let n = hs.len() as int;
        assert(historial_de(cuenta)(gs[n]));
        assert forall|k: int| 0 <= k < n implies !historial_de(cuenta)(#[trigger] gs[k]) by {
            assert(gs[k] == hs[k]);
        }
        lema_primero_unico(gs, historial_de(cuenta), n);
        assert(Seq::<PagoV>::empty().push(pago) =~= seq![pago]);
        if m >= 0 {
            assert(gs[m] == hs[m]);
            assert forall|k: int| 0 <= k < m implies !historial_de(otra)(#[trigger] gs[k]) by {
                assert(gs[k] == hs[k]);
            }
            lema_primero_unico(gs, historial_de(otra), m);
        } else {
            assert forall|k: int| 0 <= k < gs.len() implies !historial_de(otra)(#[trigger] gs[k]) by {
                if k < n {
                    assert(gs[k] == hs[k]);
                }
            }
            lema_primero_unico(gs, historial_de(otra), -1);
        }
    }
}

/// In every state of the ledger, the last cycle of a group ends on the last
/// day of the group.
pub proof fn lema_ultimo_periodo_termina_con_la_tanda(v: TandaDappV, i: int)
    requires
        v.valido(),
        0 <= i < v.tandas.len(),
        v.periodos_tanda[i] is Some,
    ensures
        v.periodos_tanda[i].unwrap().len() > 0,
        v.periodos_tanda[i].unwrap().last().fin == v.tandas[i].fecha_final,
{
    assert(v.grupo_valido(i));
    let t = v.tandas[i];
    let ps = v.periodos_tanda[i].unwrap();
    let n = ps.len() as int;
    let t0 = instante_de_fecha(t.fecha_inicio).unwrap();
    let w = ventanas(t.fecha_inicio, t.periodo, ps.len()).unwrap();
    assert(ventana_representable(t.fecha_inicio, t0, t.periodo, n - 1));
    assert(ps[n - 1].fin == w[n - 1].fin);
    assert((n - 1) * t.periodo as int + t.periodo as int - 1 == dias_hasta_el_final(
        t.num_integrantes,
        t.periodo,
    )) by (nonlinear_arith)
        requires
            n == t.num_integrantes as int,
    ;
}

/// Computing the dates of the cycles of a group anew changes nothing in a
/// valid ledger: the dates are already those that follow from the first day
/// of the group.
pub proof fn lema_regeneracion_sin_efecto(v: TandaDappV, clave: Seq<char>, solicitante: Seq<char>)
    requires
        v.valido(),
        v.regeneracion(clave, solicitante) is Ok,
    ensures
        v.regeneracion(clave, solicitante) == Ok::<TandaDappV, Error>(v),
{
    lema_primero_que(v.tandas, con_clave(clave));
    let i = v.indice_de(clave);
    assert(v.grupo_valido(i));
    let t = v.tandas[i];
    let ps = v.periodos_tanda[i].unwrap();
    let qs = periodos_regenerados(ps, t.fecha_inicio, t.periodo).unwrap();
    assert(qs =~= ps);
    assert(v.periodos_tanda.update(i, Some(qs)) =~= v.periodos_tanda);
}

} // verus!
