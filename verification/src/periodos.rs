//! The cycles of one group: their dates, the contributions they collect,
//! their turns and their payout.

use crate::busqueda::lema_primero_que;
use crate::busqueda::lema_primero_unico;
use crate::busqueda::primero_que;
use crate::date_handling::dia_siguiente;
use crate::date_handling::fecha_en;
use crate::date_handling::fecha_tras_dias;
use crate::date_handling::instante_de;
use crate::date_handling::instante_de_fecha;
use crate::date_handling::instante_mas_dias;
use crate::date_handling::texto_de_instante;
use crate::error::Error;
use crate::types::Periodo;
use crate::types::PeriodoV;
use crate::types::Tanda;
use crate::types::TandaV;
use crate::types::Transferencia;
use vstd::prelude::*;
use vstd::string::StringExecFns;

verus! {

/// The first and the last day of a cycle.
#[derive(Debug, PartialEq, Eq)]
pub struct Ventana {
    pub inicio: String,
    pub fin: String,
}

/// What a [`Ventana`] holds, as mathematics.
pub struct VentanaV {
    pub inicio: Seq<char>,
    pub fin: Seq<char>,
}

impl View for Ventana {
    type V = VentanaV;

    open spec fn view(&self) -> VentanaV {
        VentanaV { inicio: self.inicio@, fin: self.fin@ }
    }
}

/// The views of a list of windows, in order.
pub open spec fn vistas_de_ventanas(v: Seq<Ventana>) -> Seq<VentanaV> {
    v.map_values(|w: Ventana| w@)
}

/// The views of a list of cycles, in order.
pub open spec fn vistas_de_periodos(v: Seq<Periodo>) -> Seq<PeriodoV> {
    v.map_values(|p: Periodo| p@)
}

/// A copy of a list of cycles.
pub fn copiar_periodos(lista: &Vec<Periodo>) -> (copia: Vec<Periodo>)
    ensures
        vistas_de_periodos(copia@) == vistas_de_periodos(lista@),
{
    let mut copia: Vec<Periodo> = Vec::new();
    let mut i: usize = 0;
    while i < lista.len()
        invariant
            i <= lista.len(),
            copia.len() == i,
            forall|j: int| 0 <= j < i ==> copia@[j]@ == lista@[j]@,
        decreases lista.len() - i,
    {
        copia.push(lista[i].copia());
        i += 1;
    }
    assert(vistas_de_periodos(copia@) =~= vistas_de_periodos(lista@));
    copia
}

/// The first day of cycle `k` of a group whose first day, `fecha_inicio`,
/// names the second `t0`: the group's own first day for the first cycle, and
/// `k` cycle lengths later for the others.
pub open spec fn inicio_de_periodo(fecha_inicio: Seq<char>, t0: i64, periodo: u32, k: int) -> Option<
    Seq<char>,
> {
    if k == 0 {
        Some(fecha_inicio)
    } else {
        fecha_en(t0, k * periodo as int)
    }
}

/// The last day of cycle `k`: one day less than a cycle length after its first.
pub open spec fn fin_de_periodo(t0: i64, periodo: u32, k: int) -> Option<Seq<char>> {
    fecha_en(t0, k * periodo as int + periodo as int - 1)
}

/// Whether both days of cycle `k` can be represented.
pub open spec fn ventana_representable(
    fecha_inicio: Seq<char>,
    t0: i64,
    periodo: u32,
    k: int,
) -> bool {
    inicio_de_periodo(fecha_inicio, t0, periodo, k) is Some && fin_de_periodo(t0, periodo, k)
        is Some
}

/// The window of cycle `k`.
pub open spec fn ventana(fecha_inicio: Seq<char>, t0: i64, periodo: u32, k: int) -> VentanaV {
    VentanaV {
        inicio: inicio_de_periodo(fecha_inicio, t0, periodo, k).unwrap(),
        fin: fin_de_periodo(t0, periodo, k).unwrap(),
    }
}

/// The windows of `n` cycles of `periodo` days each, one after the other
/// from `fecha_inicio` on.
///
/// There are none when a cycle has no days (`PeriodoInvalido`), when the
/// first day cannot be read (`FormatoFecha`), or when one of the days cannot
/// be represented (`FechaFueraDeRango`).
pub open spec fn ventanas(fecha_inicio: Seq<char>, periodo: u32, n: nat) -> Result<
    Seq<VentanaV>,
    Error,
> {
    if periodo == 0 {
        Err(Error::PeriodoInvalido)
    } else {
        match instante_de_fecha(fecha_inicio) {
            None => Err(Error::FormatoFecha),
            Some(t0) => if forall|k: int|
                0 <= k < n ==> #[trigger] ventana_representable(fecha_inicio, t0, periodo, k) {
                Ok(Seq::new(n, |k: int| ventana(fecha_inicio, t0, periodo, k)))
            } else {
                Err(Error::FechaFueraDeRango)
            },
        }
    }
}

/// There are as many windows as cycles were asked for, the first starts on
/// the first day, and each of the others starts on the day after the one
/// before it ends.
pub proof fn lema_ventanas_contiguas(fecha_inicio: Seq<char>, periodo: u32, n: nat)
    requires
        ventanas(fecha_inicio, periodo, n) is Ok,
    ensures
        ventanas(fecha_inicio, periodo, n).unwrap().len() == n,
        n > 0 ==> ventanas(fecha_inicio, periodo, n).unwrap()[0].inicio == fecha_inicio,
        forall|k: int|
            #![trigger ventanas(fecha_inicio, periodo, n).unwrap()[k]]
            0 <= k && k + 1 < n ==> dia_siguiente(
                ventanas(fecha_inicio, periodo, n).unwrap()[k].fin,
                ventanas(fecha_inicio, periodo, n).unwrap()[k + 1].inicio,
            ),
{
    let v = ventanas(fecha_inicio, periodo, n).unwrap();
    let t0 = instante_de_fecha(fecha_inicio).unwrap();
    assert forall|k: int| 0 <= k && k + 1 < n implies dia_siguiente(
        #[trigger] v[k].fin,
        v[k + 1].inicio,
    ) by {
        assert(ventana_representable(fecha_inicio, t0, periodo, k));
        assert(ventana_representable(fecha_inicio, t0, periodo, k + 1));
        let dias_fin = k * periodo as int + periodo as int - 1;
        let dias_sig = (k + 1) * periodo as int;
        assert(dias_sig == dias_fin + 1) by (nonlinear_arith)
            requires
                dias_fin == k * periodo as int + periodo as int - 1,
                dias_sig == (k + 1) * periodo as int,
        ;
        let t = instante_mas_dias(t0, dias_fin).unwrap();
        assert(texto_de_instante(t) == Some(v[k].fin));
        assert(instante_mas_dias(t, 1) == instante_mas_dias(t0, dias_sig));
        assert(fecha_en(t, 1) == Some(v[k + 1].inicio));
    }
}

/// Computes the windows of `n` cycles of `periodo` days each, one after the
/// other from `fecha_inicio` on.
pub fn calcular_ventanas(fecha_inicio: &str, periodo: u32, n: usize) -> (resultado: Result<
    Vec<Ventana>,
    Error,
>)
    ensures
        match resultado {
            Ok(v) => ventanas(fecha_inicio@, periodo, n as nat) == Ok::<Seq<VentanaV>, Error>(
                vistas_de_ventanas(v@),
            ),
            Err(e) => ventanas(fecha_inicio@, periodo, n as nat) == Err::<Seq<VentanaV>, Error>(e),
        },
{
    if periodo == 0 {
        return Err(Error::PeriodoInvalido);
    }
    let t0 = match instante_de(fecha_inicio) {
        Ok(t) => t,
        Err(e) => {
            return Err(e);
        },
    };
    let mut v: Vec<Ventana> = Vec::new();
    let mut k: usize = 0;
    let mut dias: u64 = 0;
    while k < n
        invariant
            k <= n,
            periodo > 0,
            v.len() == k,
            dias as int == k as int * periodo as int,
            dias <= 0x8000_0000_0000_0000,
            instante_de_fecha(fecha_inicio@) == Some(t0),
            forall|j: int|
                0 <= j < k ==> #[trigger] ventana_representable(fecha_inicio@, t0, periodo, j),
            forall|j: int| 0 <= j < k ==> #[trigger] v@[j]@ == ventana(fecha_inicio@, t0, periodo, j),
        decreases n - k,
    {
        let inicio = if k == 0 {
            String::from_str(fecha_inicio)
        } else {
            match fecha_tras_dias(t0, dias) {
                Ok(f) => f,
                Err(e) => {
                    assert(!ventana_representable(fecha_inicio@, t0, periodo, k as int));
                    return Err(e);
                },
            }
        };
        let hasta: u64 = dias + (periodo - 1) as u64;
        let fin = match fecha_tras_dias(t0, hasta) {
            Ok(f) => f,
            Err(e) => {
                assert(!ventana_representable(fecha_inicio@, t0, periodo, k as int));
                return Err(e);
            },
        };
        assert(hasta <= 0x7fff_ffff_ffff_ffff) by {
            assert(instante_mas_dias(t0, hasta as int) is Some);
        }
        assert((k + 1) * periodo as int == k as int * periodo as int + periodo as int)
            by (nonlinear_arith);
        v.push(Ventana { inicio, fin });
        dias = hasta + 1;
        k += 1;
    }
    assert(vistas_de_ventanas(v@) =~= Seq::new(
        n as nat,
        |j: int| ventana(fecha_inicio@, t0, periodo, j),
    ));
    Ok(v)
}

/// The cycles that a group gets when it is made: `n` of them, of `periodo`
/// days each, one after the other from `fecha_inicio` on, and nobody has
/// contributed to any.
pub open spec fn periodos_nuevos(fecha_inicio: Seq<char>, periodo: u32, n: nat) -> Result<
    Seq<PeriodoV>,
    Error,
> {
    match ventanas(fecha_inicio, periodo, n) {
        Ok(w) => Ok(w.map_values(|x: VentanaV| PeriodoV::nuevo(x.inicio, x.fin))),
        Err(e) => Err(e),
    }
}

/// The cycles `ps`, each between the dates of the window at its position.
pub open spec fn periodos_con_fechas(ps: Seq<PeriodoV>, w: Seq<VentanaV>) -> Seq<PeriodoV> {
    Seq::new(ps.len(), |k: int| ps[k].con_fechas(w[k].inicio, w[k].fin))
}

/// The cycles `ps` moved to start on `fecha_inicio`: their dates are computed
/// anew, everything else stays.
pub open spec fn periodos_regenerados(ps: Seq<PeriodoV>, fecha_inicio: Seq<char>, periodo: u32) -> Result<
    Seq<PeriodoV>,
    Error,
> {
    match ventanas(fecha_inicio, periodo, ps.len()) {
        Ok(w) => Ok(periodos_con_fechas(ps, w)),
        Err(e) => Err(e),
    }
}

/// The dates of the cycles `ps` are those that follow from the first day and
/// the cycle length of the group `t`.
pub open spec fn fechas_en_orden(ps: Seq<PeriodoV>, t: TandaV) -> bool {
    ventanas(t.fecha_inicio, t.periodo, ps.len()) matches Ok(w) && forall|k: int|
        #![trigger ps[k]]
        0 <= k < ps.len() ==> ps[k].inicio == w[k].inicio && ps[k].fin == w[k].fin
}

/// Each of the cycles `ps` is valid for the group `t`.
pub open spec fn cuentas_en_orden(ps: Seq<PeriodoV>, t: TandaV) -> bool {
    forall|k: int| 0 <= k < ps.len() ==> (#[trigger] ps[k]).valido(t)
}

/// What holds of the cycles of every group `t` that the ledger keeps: there is
/// one for each place, each is valid, and their dates are in order.
pub open spec fn periodos_validos(ps: Seq<PeriodoV>, t: TandaV) -> bool {
    &&& ps.len() == t.num_integrantes
    &&& cuentas_en_orden(ps, t)
    &&& fechas_en_orden(ps, t)
}

/// Whether the dates of the cycles are those that follow from the first day
/// and the cycle length of the group `tanda`.
pub fn fechas_estan_en_orden(periodos: &Vec<Periodo>, tanda: &Tanda) -> (si: bool)
    ensures
        si == fechas_en_orden(vistas_de_periodos(periodos@), tanda@),
{
    let ghost ps = vistas_de_periodos(periodos@);
    let w = match calcular_ventanas(tanda.fecha_inicio.as_str(), tanda.periodo, periodos.len()) {
        Ok(w) => w,
        Err(_) => {
            return false;
        },
    };
    let ghost f = vistas_de_ventanas(w@);
    assert(f.len() == periodos.len());
    let mut k: usize = 0;
    while k < periodos.len()
        invariant
            k <= periodos.len(),
            w.len() == periodos.len(),
            ps == vistas_de_periodos(periodos@),
            f == vistas_de_ventanas(w@),
            ventanas(tanda@.fecha_inicio, tanda@.periodo, ps.len()) == Ok::<Seq<VentanaV>, Error>(f),
            forall|j: int|
                #![trigger ps[j]]
                0 <= j < k ==> ps[j].inicio == f[j].inicio && ps[j].fin == f[j].fin,
        decreases periodos.len() - k,
    {
        if !(periodos[k].inicio == w[k].inicio && periodos[k].fin == w[k].fin) {
            assert(!(ps[k as int].inicio == f[k as int].inicio && ps[k as int].fin
                == f[k as int].fin));
            return false;
        }
        k += 1;
    }
    true
}

/// Whether the cycles are such that the ledger can keep them for the group
/// `tanda`.
pub fn son_validos(periodos: &Vec<Periodo>, tanda: &Tanda) -> (si: bool)
    ensures
        si == periodos_validos(vistas_de_periodos(periodos@), tanda@),
{
    let ghost ps = vistas_de_periodos(periodos@);
    if periodos.len() != tanda.num_integrantes as usize {
        return false;
    }
    let mut k: usize = 0;
    while k < periodos.len()
        invariant
            k <= periodos.len(),
            ps == vistas_de_periodos(periodos@),
            forall|j: int| 0 <= j < k ==> (#[trigger] ps[j]).valido(tanda@),
        decreases periodos.len() - k,
    {
        if !periodos[k].es_valido(tanda) {
            assert(!ps[k as int].valido(tanda@));
            return false;
        }
        k += 1;
    }
    fechas_estan_en_orden(periodos, tanda)
}

/// The cycles that a valid group gets when it is made are valid.
pub proof fn lema_periodos_nuevos_validos(t: TandaV, ps: Seq<PeriodoV>)
    requires
        t.valida(),
        periodos_nuevos(t.fecha_inicio, t.periodo, t.num_integrantes as nat) == Ok::<
            Seq<PeriodoV>,
            Error,
        >(ps),
    ensures
        periodos_validos(ps, t),
{
    let w = ventanas(t.fecha_inicio, t.periodo, t.num_integrantes as nat).unwrap();
    assert(ps.len() == t.num_integrantes);
    assert forall|k: int| 0 <= k < ps.len() implies (#[trigger] ps[k]).valido(t) by {
        assert(ps[k] == PeriodoV::nuevo(w[k].inicio, w[k].fin));
        assert(t.monto as int * t.num_integrantes as int > 0) by (nonlinear_arith)
            requires
                t.monto > 0,
                t.num_integrantes >= 2,
        ;
    }
    assert forall|k: int| #![trigger ps[k]] 0 <= k < ps.len() implies ps[k].inicio == w[k].inicio
        && ps[k].fin == w[k].fin by {
        assert(ps[k] == PeriodoV::nuevo(w[k].inicio, w[k].fin));
    }
}

/// The cycles `ps` follow one another without a gap: each starts on the day
/// after the one before it ends.
pub open spec fn contiguos(ps: Seq<PeriodoV>) -> bool {
    forall|k: int|
        #![trigger ps[k]]
        0 <= k && k + 1 < ps.len() ==> dia_siguiente(ps[k].fin, ps[k + 1].inicio)
}

/// Valid cycles of a group are as many as the group has places, start on the
/// first day of the group and follow one another without a gap.
pub proof fn lema_periodos_contiguos(ps: Seq<PeriodoV>, t: TandaV)
    requires
        periodos_validos(ps, t),
    ensures
        ps.len() == t.num_integrantes,
        ps.len() > 0 ==> ps[0].inicio == t.fecha_inicio,
        contiguos(ps),
{
    let w = ventanas(t.fecha_inicio, t.periodo, ps.len()).unwrap();
    lema_ventanas_contiguas(t.fecha_inicio, t.periodo, ps.len());
    assert forall|k: int| #![trigger ps[k]] 0 <= k && k + 1 < ps.len() implies dia_siguiente(
        ps[k].fin,
        ps[k + 1].inicio,
    ) by {
        assert(ps[k].fin == w[k].fin);
        assert(ps[k + 1].inicio == w[k + 1].inicio);
        assert(dia_siguiente(w[k].fin, w[k + 1].inicio));
    }
}

/// Makes the cycles of a new group: `n` of them, of `periodo` days each, one
/// after the other from `fecha_inicio` on.
pub fn generar_periodos(fecha_inicio: &str, periodo: u32, n: usize) -> (resultado: Result<
    Vec<Periodo>,
    Error,
>)
    ensures
        match resultado {
            Ok(v) => periodos_nuevos(fecha_inicio@, periodo, n as nat) == Ok::<
                Seq<PeriodoV>,
                Error,
            >(vistas_de_periodos(v@)),
            Err(e) => periodos_nuevos(fecha_inicio@, periodo, n as nat) == Err::<
                Seq<PeriodoV>,
                Error,
            >(e),
        },
{
    let w = match calcular_ventanas(fecha_inicio, periodo, n) {
        Ok(w) => w,
        Err(e) => {
            return Err(e);
        },
    };
    let mut v: Vec<Periodo> = Vec::new();
    let mut k: usize = 0;
    while k < n
        invariant
            k <= n,
            w.len() == n,
            v.len() == k,
            forall|j: int| 0 <= j < k ==> #[trigger] v@[j]@ == PeriodoV::nuevo(w@[j]@.inicio, w@[j]@.fin),
        decreases n - k,
    {
        v.push(Periodo::new(w[k].inicio.clone(), w[k].fin.clone()));
        k += 1;
    }
    assert(vistas_de_periodos(v@) =~= vistas_de_ventanas(w@).map_values(
        |x: VentanaV| PeriodoV::nuevo(x.inicio, x.fin),
    ));
    Ok(v)
}

/// Moves the cycles to start on `fecha_inicio`, `periodo` days each: every
/// cycle gets its dates anew and keeps everything else. On failure nothing
/// changes.
pub fn regenerar_periodos(periodos: &mut Vec<Periodo>, fecha_inicio: &str, periodo: u32) -> (resultado:
    Result<(), Error>)
    ensures
        match resultado {
            Ok(()) => periodos_regenerados(
                vistas_de_periodos(old(periodos)@),
                fecha_inicio@,
                periodo,
            ) == Ok::<Seq<PeriodoV>, Error>(vistas_de_periodos(final(periodos)@)),
            Err(e) => periodos_regenerados(
                vistas_de_periodos(old(periodos)@),
                fecha_inicio@,
                periodo,
            ) == Err::<Seq<PeriodoV>, Error>(e) && vistas_de_periodos(final(periodos)@)
                == vistas_de_periodos(old(periodos)@),
        },
{
    let n = periodos.len();
    let w = match calcular_ventanas(fecha_inicio, periodo, n) {
        Ok(w) => w,
        Err(e) => {
            return Err(e);
        },
    };
    let ghost antes = vistas_de_periodos(periodos@);
    assert(vistas_de_ventanas(w@).len() == n);
    let mut k: usize = 0;
    while k < n
        invariant
            k <= n,
            w.len() == n,
            periodos.len() == n,
            antes.len() == n,
            forall|j: int|
                0 <= j < k ==> #[trigger] periodos@[j]@ == antes[j].con_fechas(
                    w@[j]@.inicio,
                    w@[j]@.fin,
                ),
            forall|j: int| k <= j < n ==> #[trigger] periodos@[j]@ == antes[j],
        decreases n - k,
    {
        let ghost previos = periodos@;
        assert(previos[k as int]@ == antes[k as int]);
        periodos[k].inicio = w[k].inicio.clone();
        periodos[k].fin = w[k].fin.clone();
        assert(forall|j: int| 0 <= j < n && j != k ==> periodos@[j] == previos[j]);
        assert(periodos@[k as int]@ == antes[k as int].con_fechas(
            w@[k as int]@.inicio,
            w@[k as int]@.fin,
        ));
        k += 1;
    }
    assert(vistas_de_periodos(periodos@) =~= periodos_con_fechas(antes, vistas_de_ventanas(w@)));
    Ok(())
}

/// The cycles to which `cuenta` has not contributed.
pub open spec fn falta_pago_de(cuenta: Seq<char>) -> spec_fn(PeriodoV) -> bool {
    |p: PeriodoV| !p.ha_pagado(cuenta)
}

/// The cycles that were not paid out.
pub open spec fn sin_liquidar() -> spec_fn(PeriodoV) -> bool {
    |p: PeriodoV| !p.tanda_pagada
}

/// The position of the cycle that `cuenta` owes next: the first one to which
/// it has not contributed, whatever its dates; -1 where it owes none.
pub open spec fn periodo_a_contribuir(ps: Seq<PeriodoV>, cuenta: Seq<char>) -> int {
    primero_que(ps, falta_pago_de(cuenta))
}

/// The position of the cycle that is paid out next: the first one that was
/// not; -1 where all were.
pub open spec fn periodo_a_liquidar(ps: Seq<PeriodoV>) -> int {
    primero_que(ps, sin_liquidar())
}

/// Finds the cycle that `cuenta` owes next.
pub fn siguiente_sin_pago(periodos: &Vec<Periodo>, cuenta: &String) -> (k: Option<usize>)
    ensures
        match k {
            Some(i) => periodo_a_contribuir(vistas_de_periodos(periodos@), cuenta@) == i,
            None => periodo_a_contribuir(vistas_de_periodos(periodos@), cuenta@) == -1,
        },
{
    let ghost ps = vistas_de_periodos(periodos@);
    let mut i: usize = 0;
    while i < periodos.len()
        invariant
            i <= periodos.len(),
            ps == vistas_de_periodos(periodos@),
            forall|j: int| 0 <= j < i ==> !falta_pago_de(cuenta@)(#[trigger] ps[j]),
        decreases periodos.len() - i,
    {
        if !periodos[i].ha_pagado(cuenta) {
            proof {
                assert(falta_pago_de(cuenta@)(ps[i as int]));
                lema_primero_unico(ps, falta_pago_de(cuenta@), i as int);
            }
            return Some(i);
        }
        i += 1;
    }
    proof {
        lema_primero_unico(ps, falta_pago_de(cuenta@), -1);
    }
    None
}

/// Finds the cycle that is paid out next.
pub fn siguiente_sin_liquidar(periodos: &Vec<Periodo>) -> (k: Option<usize>)
    ensures
        match k {
            Some(i) => periodo_a_liquidar(vistas_de_periodos(periodos@)) == i,
            None => periodo_a_liquidar(vistas_de_periodos(periodos@)) == -1,
        },
{
    let ghost ps = vistas_de_periodos(periodos@);
    let mut i: usize = 0;
    while i < periodos.len()
        invariant
            i <= periodos.len(),
            ps == vistas_de_periodos(periodos@),
            forall|j: int| 0 <= j < i ==> !sin_liquidar()(#[trigger] ps[j]),
        decreases periodos.len() - i,
    {
        if !periodos[i].tanda_pagada {
            proof {
                assert(sin_liquidar()(ps[i as int]));
                lema_primero_unico(ps, sin_liquidar(), i as int);
            }
            return Some(i);
        }
        i += 1;
    }
    proof {
        lema_primero_unico(ps, sin_liquidar(), -1);
    }
    None
}

/// A list without repetitions that lies within another and lacks one of its
/// items is shorter than it.
pub proof fn lema_cabe_uno_mas(a: Seq<Seq<char>>, b: Seq<Seq<char>>, x: Seq<char>)
    requires
        a.no_duplicates(),
        b.no_duplicates(),
        forall|c: Seq<char>| #[trigger] a.contains(c) ==> b.contains(c),
        b.contains(x),
        !a.contains(x),
    ensures
        a.len() < b.len(),
{
    let ax = a.push(x);
    assert(ax.no_duplicates());
    assert forall|c: Seq<char>| ax.to_set().contains(c) implies b.to_set().contains(c) by {
        let i = choose|i: int| 0 <= i < ax.len() && ax[i] == c;
        if i < a.len() {
            assert(a[i] == c);
            assert(a.contains(c));
        }
    }
    ax.unique_seq_to_set();
    b.unique_seq_to_set();
    vstd::set_lib::lemma_len_subset(ax.to_set(), b.to_set());
}

/// Putting a valid cycle with the same dates in the place of another keeps
/// the cycles of a group valid.
pub proof fn lema_cambio_valido(ps: Seq<PeriodoV>, t: TandaV, k: int, p: PeriodoV)
    requires
        periodos_validos(ps, t),
        0 <= k < ps.len(),
        p.valido(t),
        p.inicio == ps[k].inicio,
        p.fin == ps[k].fin,
    ensures
        periodos_validos(ps.update(k, p), t),
{
    let qs = ps.update(k, p);
    let w = ventanas(t.fecha_inicio, t.periodo, ps.len()).unwrap();
    assert forall|j: int| 0 <= j < qs.len() implies (#[trigger] qs[j]).valido(t) by {
        if j != k {
            assert(qs[j] == ps[j]);
        }
    }
    assert forall|j: int| #![trigger qs[j]] 0 <= j < qs.len() implies qs[j].inicio == w[j].inicio
        && qs[j].fin == w[j].fin by {
        assert(ps[j].inicio == w[j].inicio);
    }
}

/// A new member of the group keeps its cycles valid.
pub proof fn lema_validos_con_integrante(ps: Seq<PeriodoV>, t: TandaV, cuenta: Seq<char>)
    requires
        periodos_validos(ps, t),
    ensures
        periodos_validos(ps, t.con_integrante(cuenta)),
{
    let u = t.con_integrante(cuenta);
    assert forall|k: int| 0 <= k < ps.len() implies (#[trigger] ps[k]).valido(u) by {
        assert(ps[k].valido(t));
        assert forall|c: Seq<char>| t.integrantes.contains(c) implies u.integrantes.contains(c) by {
            let i = choose|i: int| 0 <= i < t.integrantes.len() && t.integrantes[i] == c;
            assert(u.integrantes[i] == c);
        }
    }
}

/// Cycles that are valid for a group stay valid for a group with the same
/// members, places and amount when their dates are those that follow from
/// its first day.
pub proof fn lema_validez_trasladada(ps: Seq<PeriodoV>, qs: Seq<PeriodoV>, t: TandaV, u: TandaV)
    requires
        periodos_validos(ps, t),
        u.integrantes == t.integrantes,
        u.monto == t.monto,
        u.num_integrantes == t.num_integrantes,
        qs.len() == ps.len(),
        forall|k: int|
            0 <= k < ps.len() ==> #[trigger] qs[k] == ps[k].con_fechas(qs[k].inicio, qs[k].fin),
        fechas_en_orden(qs, u),
    ensures
        periodos_validos(qs, u),
{
    assert forall|k: int| 0 <= k < qs.len() implies (#[trigger] qs[k]).valido(u) by {
        assert(ps[k].valido(t));
        assert(qs[k] == ps[k].con_fechas(qs[k].inicio, qs[k].fin));
    }
}

/// Cycles that were moved to the first day of a group have their dates in
/// order for it.
pub proof fn lema_regenerados_en_orden(ps: Seq<PeriodoV>, qs: Seq<PeriodoV>, u: TandaV)
    requires
        periodos_regenerados(ps, u.fecha_inicio, u.periodo) == Ok::<Seq<PeriodoV>, Error>(qs),
    ensures
        qs.len() == ps.len(),
        forall|k: int|
            0 <= k < ps.len() ==> #[trigger] qs[k] == ps[k].con_fechas(qs[k].inicio, qs[k].fin),
        fechas_en_orden(qs, u),
{
    let w = ventanas(u.fecha_inicio, u.periodo, ps.len()).unwrap();
    assert(qs == periodos_con_fechas(ps, w));
    assert forall|k: int| #![trigger qs[k]] 0 <= k < qs.len() implies qs[k].inicio == w[k].inicio
        && qs[k].fin == w[k].fin by {}
}

/// A contribution keeps a cycle valid: the account is a member of the group
/// and has not contributed to the cycle before.
pub proof fn lema_pago_valido(p: PeriodoV, t: TandaV, cuenta: Seq<char>)
    requires
        t.integrantes.no_duplicates(),
        t.integrantes.len() <= t.num_integrantes,
        p.valido(t),
        t.es_integrante(cuenta),
        !p.ha_pagado(cuenta),
    ensures
        p.con_pago(cuenta, t).valido(t),
        p.integrantes_pagados.len() < t.num_integrantes,
        p.cantidad_recaudada + t.monto <= u64::MAX,
        t.monto as int * t.num_integrantes as int <= u64::MAX,
        !p.pagos_completos,
        !p.tanda_pagada,
{
    lema_cabe_uno_mas(p.integrantes_pagados, t.integrantes, cuenta);
    let n = p.integrantes_pagados.len() as int;
    let m = t.monto as int;
    let c = t.num_integrantes as int;
    assert(m * (n + 1) == m * n + m) by (nonlinear_arith);
    assert(m * (n + 1) <= m * c) by (nonlinear_arith)
        requires
            n + 1 <= c,
            m >= 0,
    ;
    assert(m * c <= 0xffff_ffff * 0xffff_ffff) by (nonlinear_arith)
        requires
            0 <= m <= 0xffff_ffff,
            0 <= c <= 0xffff_ffff,
    ;
    let q = p.con_pago(cuenta, t);
    assert(q.integrantes_pagados.len() == n + 1);
    assert forall|x: Seq<char>| #[trigger]
        q.integrantes_pagados.contains(x) implies t.integrantes.contains(x) by {
        let i = choose|i: int| 0 <= i < q.integrantes_pagados.len() && q.integrantes_pagados[i] == x;
        if i < n {
            assert(p.integrantes_pagados[i] == x);
            assert(p.integrantes_pagados.contains(x));
        }
    }
}

/// Notes the contribution of `cuenta`, a member of the group `tanda`, in the
/// cycle that the account owes next: the account joins those who have
/// contributed to it, the amount of the group is added to what the cycle has
/// collected, and the cycle is marked complete exactly if it now has the whole
/// amount from every place of the group.
///
/// Fails with `PagosCompletados`, and changes nothing, when the account has
/// contributed to every cycle.
pub fn anotar_pago(periodos: &mut Vec<Periodo>, tanda: &Tanda, cuenta: &String) -> (resultado:
    Result<usize, Error>)
    requires
        tanda@.integrantes.no_duplicates(),
        tanda@.integrantes.len() <= tanda@.num_integrantes,
        cuentas_en_orden(vistas_de_periodos(old(periodos)@), tanda@),
        tanda@.es_integrante(cuenta@),
    ensures
        match resultado {
            Ok(k) => {
                &&& k == periodo_a_contribuir(vistas_de_periodos(old(periodos)@), cuenta@)
                &&& vistas_de_periodos(final(periodos)@) == vistas_de_periodos(
                    old(periodos)@,
                ).update(
                    k as int,
                    vistas_de_periodos(old(periodos)@)[k as int].con_pago(cuenta@, tanda@),
                )
            },
            Err(e) => {
                &&& e == Error::PagosCompletados
                &&& periodo_a_contribuir(vistas_de_periodos(old(periodos)@), cuenta@) == -1
                &&& vistas_de_periodos(final(periodos)@) == vistas_de_periodos(old(periodos)@)
            },
        },
        cuentas_en_orden(vistas_de_periodos(final(periodos)@), tanda@),
{
    let ghost antes = vistas_de_periodos(periodos@);
    let k = match siguiente_sin_pago(periodos, cuenta) {
        Some(k) => k,
        None => {
            return Err(Error::PagosCompletados);
        },
    };
    proof {
        crate::busqueda::lema_primero_que(antes, falta_pago_de(cuenta@));
        assert(antes[k as int].valido(tanda@));
        assert(periodos@[k as int]@ == antes[k as int]);
        lema_pago_valido(antes[k as int], tanda@, cuenta@);
    }
    periodos[k].integrantes_pagados.push(cuenta.clone());
    periodos[k].cantidad_recaudada = periodos[k].cantidad_recaudada + tanda.monto as u64;
    let completo = periodos[k].cantidad_recaudada == tanda.monto as u64 * tanda.num_integrantes as u64
        && periodos[k].integrantes_pagados.len() == tanda.num_integrantes as usize;
    periodos[k].pagos_completos = completo;
    proof {
        let despues = vistas_de_periodos(periodos@);
        assert(periodos@[k as int]@.integrantes_pagados =~= antes[k as int].integrantes_pagados.push(
            cuenta@,
        ));
        assert(periodos@[k as int]@ == antes[k as int].con_pago(cuenta@, tanda@));
        assert(despues =~= antes.update(k as int, antes[k as int].con_pago(cuenta@, tanda@)));
        assert forall|j: int| 0 <= j < despues.len() implies (#[trigger] despues[j]).valido(
            tanda@,
        ) by {
            if j != k {
                assert(despues[j] == antes[j]);
            }
        }
    }
    Ok(k)
}

/// Why `num_turno` cannot be claimed among the cycles `ps`, if it cannot:
/// the turns are numbered from 1, and each can be claimed once.
pub open spec fn error_de_turno(ps: Seq<PeriodoV>, num_turno: int) -> Option<Error> {
    if !(1 <= num_turno <= ps.len()) {
        Some(Error::TurnoFueraDeRango)
    } else if ps[num_turno - 1].tiene_turno() {
        Some(Error::TurnoTomado)
    } else {
        None
    }
}

/// Gives the turn `num_turno`, counted from 1, to `cuenta`. On failure
/// nothing changes.
pub fn tomar_turno(periodos: &mut Vec<Periodo>, num_turno: usize, cuenta: &String) -> (resultado:
    Result<(), Error>)
    ensures
        match resultado {
            Ok(()) => {
                &&& error_de_turno(vistas_de_periodos(old(periodos)@), num_turno as int) is None
                &&& vistas_de_periodos(final(periodos)@) == vistas_de_periodos(
                    old(periodos)@,
                ).update(
                    num_turno - 1,
                    vistas_de_periodos(old(periodos)@)[num_turno - 1].con_turno(cuenta@),
                )
            },
            Err(e) => {
                &&& error_de_turno(vistas_de_periodos(old(periodos)@), num_turno as int) == Some(e)
                &&& vistas_de_periodos(final(periodos)@) == vistas_de_periodos(old(periodos)@)
            },
        },
{
    let ghost antes = vistas_de_periodos(periodos@);
    if num_turno < 1 || num_turno > periodos.len() {
        return Err(Error::TurnoFueraDeRango);
    }
    let k = num_turno - 1;
    assert(periodos@[k as int]@ == antes[k as int]);
    if periodos[k].tiene_turno() {
        return Err(Error::TurnoTomado);
    }
    periodos[k].usuario_en_turno = cuenta.clone();
    assert(vistas_de_periodos(periodos@) =~= antes.update(
        k as int,
        antes[k as int].con_turno(cuenta@),
    ));
    Ok(())
}

/// Why the cycle at `indice` cannot be paid out, if it cannot: it exists,
/// every member has contributed to it, somebody has claimed its turn, and it
/// was not paid out before.
pub open spec fn error_de_liquidacion(ps: Seq<PeriodoV>, indice: int) -> Option<Error> {
    if !(0 <= indice < ps.len()) {
        Some(Error::PeriodoInexistente)
    } else if !ps[indice].pagos_completos {
        Some(Error::PagosIncompletos)
    } else if !ps[indice].tiene_turno() {
        Some(Error::SinUsuarioEnTurno)
    } else if ps[indice].tanda_pagada {
        Some(Error::YaPagada)
    } else {
        None
    }
}

/// Pays out the cycle at `indice`: marks it paid and says what is owed to
/// whom, the whole of what the cycle collected to the member whose turn it
/// is. On failure nothing changes.
pub fn liquidar_periodo(periodos: &mut Vec<Periodo>, indice: i64) -> (resultado: Result<
    Transferencia,
    Error,
>)
    ensures
        match resultado {
            Ok(pago) => {
                &&& error_de_liquidacion(vistas_de_periodos(old(periodos)@), indice as int) is None
                &&& pago@.destinatario == vistas_de_periodos(
                    old(periodos)@,
                )[indice as int].usuario_en_turno
                &&& pago@.monto == vistas_de_periodos(
                    old(periodos)@,
                )[indice as int].cantidad_recaudada
                &&& vistas_de_periodos(final(periodos)@) == vistas_de_periodos(
                    old(periodos)@,
                ).update(indice as int, vistas_de_periodos(old(periodos)@)[indice as int].liquidado())
            },
            Err(e) => {
                &&& error_de_liquidacion(vistas_de_periodos(old(periodos)@), indice as int) == Some(
                    e,
                )
                &&& vistas_de_periodos(final(periodos)@) == vistas_de_periodos(old(periodos)@)
            },
        },
{
    let ghost antes = vistas_de_periodos(periodos@);
    if indice < 0 || indice as u64 >= periodos.len() as u64 {
        return Err(Error::PeriodoInexistente);
    }
    let k = indice as usize;
    assert(periodos@[k as int]@ == antes[k as int]);
    if !periodos[k].pagos_completos {
        return Err(Error::PagosIncompletos);
    }
    if !periodos[k].tiene_turno() {
        return Err(Error::SinUsuarioEnTurno);
    }
    if periodos[k].tanda_pagada {
        return Err(Error::YaPagada);
    }
    let pago = Transferencia {
        destinatario: periodos[k].usuario_en_turno.clone(),
        monto: periodos[k].cantidad_recaudada,
    };
    periodos[k].tanda_pagada = true;
    assert(vistas_de_periodos(periodos@) =~= antes.update(k as int, antes[k as int].liquidado()));
    Ok(pago)
}

} // verus!
