//! The ledger: every group with its cycles and its history of contributions,
//! and what each account has created and joined.

use crate::MAX_PAGE_SIZE;
use crate::busqueda::lema_primero_que;
use crate::busqueda::lema_primero_unico;
use crate::busqueda::primero_que;
use crate::date_handling::calcular_inicio;
use crate::error::Error;
use crate::modelo::TandaDappV;
use crate::modelo::con_clave;
use crate::modelo::cuentas_distintas;
use crate::modelo::de_cuenta;
use crate::modelo::historial_con_pago;
use crate::modelo::historial_de;
use crate::modelo::lema_cambio_de_grupo;
use crate::modelo::lema_historial_con_pago;
use crate::modelo::usuarios_distintos;
use crate::one_near;
use crate::periodos::anotar_pago;
use crate::periodos::contiguos;
use crate::periodos::copiar_periodos;
use crate::periodos::falta_pago_de;
use crate::periodos::generar_periodos;
use crate::periodos::lema_cambio_valido;
use crate::periodos::lema_pago_valido;
use crate::periodos::lema_periodos_contiguos;
use crate::periodos::lema_periodos_nuevos_validos;
use crate::periodos::lema_regenerados_en_orden;
use crate::periodos::lema_validez_trasladada;
use crate::periodos::lema_validos_con_integrante;
use crate::periodos::liquidar_periodo;
use crate::periodos::periodo_a_contribuir;
use crate::periodos::periodo_a_liquidar;
use crate::periodos::periodos_regenerados;
use crate::periodos::regenerar_periodos;
use crate::periodos::siguiente_sin_liquidar;
use crate::periodos::siguiente_sin_pago;
use crate::periodos::sin_liquidar;
use crate::periodos::son_validos;
use crate::periodos::tomar_turno;
use crate::periodos::vistas_de_periodos;
use crate::texto::copiar_cadenas;
use crate::texto::decimal;
use crate::texto::escribir_decimal;
use crate::texto::vistas;
use crate::types::HistorialCuenta;
use crate::types::HistorialCuentaV;
use crate::types::HistorialTanda;
use crate::types::HistorialTandaV;
use crate::types::Pago;
use crate::types::PagoV;
use crate::types::Periodo;
use crate::types::PeriodoV;
use crate::types::Tanda;
use crate::types::TandaV;
use crate::types::Transferencia;
use crate::types::Usuario;
use crate::types::UsuarioV;
use crate::types::copiar_historiales;
use crate::types::copiar_pagos;
use crate::types::fecha_final_de;
use crate::types::vista_de_texto;
use crate::types::vistas_de_historiales;
use crate::types::vistas_de_pagos;
use vstd::prelude::*;
use vstd::string::StringExecFns;

verus! {

/// The ledger of all groups.
///
/// Groups are kept in the order in which they were created, and the key of a
/// group is its position in that order, written in base ten. The cycles and
/// the history of a group are kept at the same position as the group.
pub struct TandaDapp {
    tandas: Vec<Tanda>,
    periodos_tanda: Vec<Option<Vec<Periodo>>>,
    usuarios: Vec<Usuario>,
    pagos: Vec<Vec<HistorialCuenta>>,
}

/// The views of a list of groups, in order.
pub open spec fn vistas_de_tandas(v: Seq<Tanda>) -> Seq<TandaV> {
    v.map_values(|t: Tanda| t@)
}

/// The views of a list of accounts, in order.
pub open spec fn vistas_de_usuarios(v: Seq<Usuario>) -> Seq<UsuarioV> {
    v.map_values(|u: Usuario| u@)
}

/// The view of the cycles of a group, if it has any.
pub open spec fn vista_de_ciclos(o: Option<Vec<Periodo>>) -> Option<Seq<PeriodoV>> {
    match o {
        Some(ps) => Some(vistas_de_periodos(ps@)),
        None => None,
    }
}

/// What a ledger made of these parts holds: the groups, for each group its
/// cycles and its history, at the position of the group, and the accounts.
pub open spec fn vista_de_partes(
    tandas: Seq<Tanda>,
    periodos_tanda: Seq<Option<Vec<Periodo>>>,
    usuarios: Seq<Usuario>,
    pagos: Seq<Vec<HistorialCuenta>>,
) -> TandaDappV {
    TandaDappV {
        tandas: vistas_de_tandas(tandas),
        periodos_tanda: periodos_tanda.map_values(|o: Option<Vec<Periodo>>| vista_de_ciclos(o)),
        usuarios: vistas_de_usuarios(usuarios),
        pagos: pagos.map_values(|h: Vec<HistorialCuenta>| vistas_de_historiales(h@)),
    }
}

impl View for TandaDapp {
    type V = TandaDappV;

    closed spec fn view(&self) -> TandaDappV {
        vista_de_partes(self.tandas@, self.periodos_tanda@, self.usuarios@, self.pagos@)
    }
}

/// Whether each account has one history in the list.
pub fn historiales_distintos(lista: &Vec<HistorialCuenta>) -> (si: bool)
    ensures
        si == cuentas_distintas(vistas_de_historiales(lista@)),
{
    let ghost hs = vistas_de_historiales(lista@);
    let mut i: usize = 0;
    while i < lista.len()
        invariant
            i <= lista.len(),
            hs == vistas_de_historiales(lista@),
            forall|a: int, b: int| 0 <= a < b < i ==> hs[a].cuenta != hs[b].cuenta,
        decreases lista.len() - i,
    {
        let mut j: usize = 0;
        while j < i
            invariant
                j <= i,
                i < lista.len(),
                hs == vistas_de_historiales(lista@),
                forall|a: int| 0 <= a < j ==> hs[a].cuenta != hs[i as int].cuenta,
            decreases i - j,
        {
            if lista[j].cuenta == lista[i].cuenta {
                assert(hs[j as int].cuenta == hs[i as int].cuenta);
                return false;
            }
            j += 1;
        }
        i += 1;
    }
    assert forall|a: int, b: int| 0 <= a < hs.len() && 0 <= b < hs.len() && a != b implies (
    #[trigger] hs[a]).cuenta != (#[trigger] hs[b]).cuenta by {
        if a < b {
        } else {
            assert(hs[b].cuenta != hs[a].cuenta);
        }
    }
    true
}

/// Whether each account has one record in the list.
pub fn registros_distintos(lista: &Vec<Usuario>) -> (si: bool)
    ensures
        si == usuarios_distintos(vistas_de_usuarios(lista@)),
{
    let ghost us = vistas_de_usuarios(lista@);
    let mut i: usize = 0;
    while i < lista.len()
        invariant
            i <= lista.len(),
            us == vistas_de_usuarios(lista@),
            forall|a: int, b: int| 0 <= a < b < i ==> us[a].cuenta != us[b].cuenta,
        decreases lista.len() - i,
    {
        let mut j: usize = 0;
        while j < i
            invariant
                j <= i,
                i < lista.len(),
                us == vistas_de_usuarios(lista@),
                forall|a: int| 0 <= a < j ==> us[a].cuenta != us[i as int].cuenta,
            decreases i - j,
        {
            if lista[j].cuenta == lista[i].cuenta {
                assert(us[j as int].cuenta == us[i as int].cuenta);
                return false;
            }
            j += 1;
        }
        i += 1;
    }
    assert forall|a: int, b: int| 0 <= a < us.len() && 0 <= b < us.len() && a != b implies (
    #[trigger] us[a]).cuenta != (#[trigger] us[b]).cuenta by {
        if a < b {
        } else {
            assert(us[b].cuenta != us[a].cuenta);
        }
    }
    true
}

impl TandaDapp {
    /// The ledger is in a state that its operations can start from. It holds
    /// of the empty ledger and every operation keeps it.
    pub open spec fn wf(&self) -> bool {
        self@.valido()
    }

    /// The ledger without groups and accounts.
    pub fn new() -> (dapp: TandaDapp)
        ensures
            dapp@ == TandaDappV::vacio(),
            dapp.wf(),
    {
        let dapp = TandaDapp {
            tandas: Vec::new(),
            periodos_tanda: Vec::new(),
            usuarios: Vec::new(),
            pagos: Vec::new(),
        };
        assert(dapp@.tandas =~= Seq::empty());
        assert(dapp@.periodos_tanda =~= Seq::empty());
        assert(dapp@.usuarios =~= Seq::empty());
        assert(dapp@.pagos =~= Seq::empty());
        dapp
    }

    /// Whether the group at position `i`, its cycles and its history are in
    /// order.
    fn grupo_es_valido(&self, i: usize) -> (si: bool)
        requires
            i < self.tandas.len(),
            self.periodos_tanda.len() == self.tandas.len(),
            self.pagos.len() == self.tandas.len(),
        ensures
            si == self@.grupo_valido(i as int),
    {
        assert(self.tandas@[i as int]@ == self@.tandas[i as int]);
        let clave = escribir_decimal(i as u64);
        let ciclos = match &self.periodos_tanda[i] {
            Some(ps) => son_validos(ps, &self.tandas[i]),
            None => true,
        };
        self.tandas[i].id == clave && self.tandas[i].es_valida() && ciclos && historiales_distintos(
            &self.pagos[i],
        )
    }

    /// Whether the ledger is in a state that its operations can start from.
    pub fn es_valido(&self) -> (si: bool)
        ensures
            si == self.wf(),
    {
        if self.periodos_tanda.len() != self.tandas.len() || self.pagos.len() != self.tandas.len() {
            return false;
        }
        let mut i: usize = 0;
        while i < self.tandas.len()
            invariant
                i <= self.tandas.len(),
                self.periodos_tanda.len() == self.tandas.len(),
                self.pagos.len() == self.tandas.len(),
                forall|j: int| 0 <= j < i ==> #[trigger] self@.grupo_valido(j),
            decreases self.tandas.len() - i,
        {
            if !self.grupo_es_valido(i) {
                return false;
            }
            i += 1;
        }
        registros_distintos(&self.usuarios)
    }

    /// The ledger that holds these parts: the groups, oldest first; for each
    /// group, at its position, its cycles, if it has any, and its history; and
    /// the records of the accounts. There is none where the parts are not in
    /// order, as [`TandaDappV::valido`] says.
    pub fn desde_partes(
        tandas: Vec<Tanda>,
        periodos_tanda: Vec<Option<Vec<Periodo>>>,
        usuarios: Vec<Usuario>,
        pagos: Vec<Vec<HistorialCuenta>>,
    ) -> (dapp: Option<TandaDapp>)
        ensures
            match dapp {
                Some(d) => d@ == vista_de_partes(tandas@, periodos_tanda@, usuarios@, pagos@)
                    && d.wf(),
                None => !vista_de_partes(tandas@, periodos_tanda@, usuarios@, pagos@).valido(),
            },
    {
        let dapp = TandaDapp { tandas, periodos_tanda, usuarios, pagos };
        if dapp.es_valido() {
            Some(dapp)
        } else {
            None
        }
    }

    /// The parts of the ledger: its groups, the cycles of each group, the
    /// records of the accounts, and the history of each group.
    pub fn en_partes(self) -> (partes: (
        Vec<Tanda>,
        Vec<Option<Vec<Periodo>>>,
        Vec<Usuario>,
        Vec<Vec<HistorialCuenta>>,
    ))
        ensures
            vista_de_partes(partes.0@, partes.1@, partes.2@, partes.3@) == self@,
    {
        (self.tandas, self.periodos_tanda, self.usuarios, self.pagos)
    }

    /// Finds the position of the group with the key `clave`.
    fn buscar(&self, clave: &String) -> (k: Option<usize>)
        ensures
            match k {
                Some(i) => self@.indice_de(clave@) == i && i < self.tandas.len(),
                None => self@.indice_de(clave@) == -1,
            },
    {
        let ghost ts = self@.tandas;
        let mut i: usize = 0;
        while i < self.tandas.len()
            invariant
                i <= self.tandas.len(),
                ts == vistas_de_tandas(self.tandas@),
                forall|j: int| 0 <= j < i ==> !con_clave(clave@)(#[trigger] ts[j]),
            decreases self.tandas.len() - i,
        {
            if self.tandas[i].id == *clave {
                proof {
                    assert(con_clave(clave@)(ts[i as int]));
                    lema_primero_unico(ts, con_clave(clave@), i as int);
                }
                return Some(i);
            }
            i += 1;
        }
        proof {
            lema_primero_unico(ts, con_clave(clave@), -1);
        }
        None
    }

    /// Finds the position of the record of `cuenta`.
    fn buscar_usuario(&self, cuenta: &String) -> (k: Option<usize>)
        ensures
            match k {
                Some(i) => self@.indice_de_usuario(cuenta@) == i && i < self.usuarios.len(),
                None => self@.indice_de_usuario(cuenta@) == -1,
            },
    {
        let ghost us = self@.usuarios;
        let mut i: usize = 0;
        while i < self.usuarios.len()
            invariant
                i <= self.usuarios.len(),
                us == vistas_de_usuarios(self.usuarios@),
                forall|j: int| 0 <= j < i ==> !de_cuenta(cuenta@)(#[trigger] us[j]),
            decreases self.usuarios.len() - i,
        {
            if self.usuarios[i].cuenta == *cuenta {
                proof {
                    assert(de_cuenta(cuenta@)(us[i as int]));
                    lema_primero_unico(us, de_cuenta(cuenta@), i as int);
                }
                return Some(i);
            }
            i += 1;
        }
        proof {
            lema_primero_unico(us, de_cuenta(cuenta@), -1);
        }
        None
    }

    /// Finds the position of the history of `cuenta` in the group at position `i`.
    fn buscar_historial(&self, i: usize, cuenta: &String) -> (k: Option<usize>)
        requires
            i < self.pagos.len(),
        ensures
            match k {
                Some(j) => primero_que(self@.pagos[i as int], historial_de(cuenta@)) == j && j
                    < self.pagos[i as int].len(),
                None => primero_que(self@.pagos[i as int], historial_de(cuenta@)) == -1,
            },
    {
        let ghost hs = self@.pagos[i as int];
        let mut j: usize = 0;
        while j < self.pagos[i].len()
            invariant
                i < self.pagos.len(),
                j <= self.pagos[i as int].len(),
                hs == vistas_de_historiales(self.pagos@[i as int]@),
                forall|k: int| 0 <= k < j ==> !historial_de(cuenta@)(#[trigger] hs[k]),
            decreases self.pagos[i as int].len() - j,
        {
            if self.pagos[i][j].cuenta == *cuenta {
                proof {
                    assert(historial_de(cuenta@)(hs[j as int]));
                    lema_primero_unico(hs, historial_de(cuenta@), j as int);
                }
                return Some(j);
            }
            j += 1;
        }
        proof {
            lema_primero_unico(hs, historial_de(cuenta@), -1);
        }
        None
    }

    /// Creates a group for `solicitante` and gives back its key.
    ///
    /// `deposito` is what came with the request, in the smallest unit of
    /// NEAR, and `marca_de_tiempo` the clock reading, in nanoseconds. On
    /// failure nothing changes.
    pub fn crear_tanda(
        &mut self,
        nombre_tanda: String,
        num_integrantes: u32,
        monto: u32,
        periodo: u32,
        solicitante: String,
        deposito: u128,
        marca_de_tiempo: u64,
    ) -> (resultado: Result<String, Error>)
        ensures
            match resultado {
                Ok(id) => {
                    &&& old(self)@.alta(
                        nombre_tanda@,
                        num_integrantes,
                        monto,
                        periodo,
                        solicitante@,
                        deposito,
                        marca_de_tiempo,
                    ) == Ok::<TandaDappV, Error>(final(self)@)
                    &&& id@ == decimal(old(self)@.tandas.len())
                    &&& final(self)@.tandas.last().id == id@
                    &&& final(self)@.periodos_tanda.last() matches Some(ps)
                    &&& ps.len() == num_integrantes
                    &&& contiguos(ps)
                },
                Err(e) => {
                    &&& old(self)@.alta(
                        nombre_tanda@,
                        num_integrantes,
                        monto,
                        periodo,
                        solicitante@,
                        deposito,
                        marca_de_tiempo,
                    ) == Err::<TandaDappV, Error>(e)
                    &&& final(self)@ == old(self)@
                },
            },
            old(self).wf() ==> final(self).wf(),
    {
        if deposito < one_near() {
            return Err(Error::DepositoInsuficiente);
        }
        let id = escribir_decimal(self.tandas.len() as u64);
        let t = match Tanda::new(
            id.clone(),
            solicitante.clone(),
            nombre_tanda,
            num_integrantes,
            monto,
            periodo,
            marca_de_tiempo,
        ) {
            Ok(t) => t,
            Err(e) => {
                return Err(e);
            },
        };
        let ps = match generar_periodos(t.fecha_inicio.as_str(), periodo, num_integrantes as usize) {
            Ok(ps) => ps,
            Err(e) => {
                return Err(e);
            },
        };
        let ghost antes = self@;
        let ghost tv = t@;
        let ghost psv = vistas_de_periodos(ps@);
        proof {
            lema_periodos_nuevos_validos(tv, psv);
            lema_periodos_contiguos(psv, tv);
        }
        self.tandas.push(t);
        self.periodos_tanda.push(Some(ps));
        let sin_pagos: Vec<HistorialCuenta> = Vec::new();
        assert(vistas_de_historiales(sin_pagos@) =~= Seq::<HistorialCuentaV>::empty());
        self.pagos.push(sin_pagos);
        let ghost medio = self@;
        proof {
            assert(medio.tandas =~= antes.tandas.push(tv));
            assert(medio.periodos_tanda =~= antes.periodos_tanda.push(Some(psv)));
            assert(medio.pagos =~= antes.pagos.push(Seq::empty()));
            assert(medio.usuarios == antes.usuarios);
            if antes.valido() {
                assert forall|i: int| 0 <= i < medio.tandas.len() implies #[trigger] medio.grupo_valido(
                    i,
                ) by {
                    if i < antes.tandas.len() {
                        assert(antes.grupo_valido(i));
                    }
                }
                assert(medio.valido());
            }
        }
        self.registrar_usuario(solicitante, id.clone(), true);
        Ok(id)
    }

    /// Notes for `cuenta` that it has created (`creada`) or joined the group
    /// `id_tanda`. An account that is seen for the first time gets its record
    /// here. Nothing is checked against what was noted before: the same group
    /// can be noted twice.
    pub fn registrar_usuario(&mut self, cuenta: String, id_tanda: String, creada: bool)
        ensures
            final(self)@ == old(self)@.con_registro(cuenta@, id_tanda@, creada),
            old(self).wf() ==> final(self).wf(),
    {
        let ghost us = self@.usuarios;
        proof {
            lema_primero_que(us, de_cuenta(cuenta@));
        }
        match self.buscar_usuario(&cuenta) {
            Some(i) => {
                self.usuarios[i].anotar_tanda(id_tanda, creada);
                assert(vistas_de_usuarios(self.usuarios@) =~= us.update(
                    i as int,
                    us[i as int].con_tanda(id_tanda@, creada),
                ));
            },
            None => {
                let mut nuevo = Usuario::new(cuenta);
                nuevo.anotar_tanda(id_tanda, creada);
                self.usuarios.push(nuevo);
                assert(vistas_de_usuarios(self.usuarios@) =~= us.push(
                    UsuarioV::nuevo(cuenta@).con_tanda(id_tanda@, creada),
                ));
            },
        }
        proof {
            if old(self).wf() {
                assert forall|i: int| 0 <= i < self@.tandas.len() implies #[trigger] self@.grupo_valido(
                    i,
                ) by {
                    assert(old(self)@.grupo_valido(i));
                }
            }
        }
    }

    /// Gives the group `clave` its cycles, one for each of its places from its
    /// first day on. Nothing happens where the group is unknown or has its
    /// cycles already. On failure nothing changes.
    pub fn generar_periodos(&mut self, clave: &String) -> (resultado: Result<(), Error>)
        requires
            old(self).wf(),
        ensures
            match resultado {
                Ok(()) => old(self)@.inicializacion(clave@) == Ok::<TandaDappV, Error>(final(self)@),
                Err(e) => old(self)@.inicializacion(clave@) == Err::<TandaDappV, Error>(e)
                    && final(self)@ == old(self)@,
            },
            final(self).wf(),
    {
        let i = match self.buscar(clave) {
            Some(i) => i,
            None => {
                return Ok(());
            },
        };
        let ghost antes = self@;
        let ghost t = antes.tandas[i as int];
        assert(self.tandas@[i as int]@ == t);
        assert(antes.grupo_valido(i as int));
        if self.periodos_tanda[i].is_some() {
            return Ok(());
        }
        let ps = match generar_periodos(
            self.tandas[i].fecha_inicio.as_str(),
            self.tandas[i].periodo,
            self.tandas[i].num_integrantes as usize,
        ) {
            Ok(ps) => ps,
            Err(e) => {
                return Err(e);
            },
        };
        let ghost qs = vistas_de_periodos(ps@);
        self.periodos_tanda[i] = Some(ps);
        proof {
            lema_periodos_nuevos_validos(t, qs);
            assert(self@.periodos_tanda =~= antes.periodos_tanda.update(i as int, Some(qs)));
            lema_cambio_de_grupo(antes, self@, i as int);
        }
        Ok(())
    }

    /// Gives `solicitante` a place in the group `clave`. On failure nothing
    /// changes.
    pub fn agregar_integrante(&mut self, clave: &String, solicitante: String) -> (resultado: Result<
        (),
        Error,
    >)
        requires
            old(self).wf(),
        ensures
            match resultado {
                Ok(()) => old(self)@.ingreso(clave@, solicitante@) == Ok::<TandaDappV, Error>(
                    final(self)@,
                ),
                Err(e) => old(self)@.ingreso(clave@, solicitante@) == Err::<TandaDappV, Error>(e)
                    && final(self)@ == old(self)@,
            },
            final(self).wf(),
    {
        let i = match self.buscar(clave) {
            Some(i) => i,
            None => {
                return Err(Error::TandaInexistente);
            },
        };
        let ghost antes = self@;
        assert(self.tandas@[i as int]@ == antes.tandas[i as int]);
        if self.tandas[i].es_integrante(&solicitante) {
            return Err(Error::YaEsIntegrante);
        }
        if self.tandas[i].llena() {
            return Err(Error::TandaLlena);
        }
        self.tandas[i].agregar_integrante(solicitante.clone());
        let id = self.tandas[i].id.clone();
        let ghost medio = self@;
        proof {
            let t = antes.tandas[i as int];
            assert(medio.tandas =~= antes.tandas.update(i as int, t.con_integrante(solicitante@)));
            assert(antes.grupo_valido(i as int));
            match antes.periodos_tanda[i as int] {
                Some(ps) => {
                    lema_validos_con_integrante(ps, t, solicitante@);
                },
                None => {},
            }
            lema_cambio_de_grupo(antes, medio, i as int);
        }
        self.registrar_usuario(solicitante, id, false);
        Ok(())
    }

    /// Adds `pago` to what `cuenta` has contributed to the group at position `i`.
    fn anotar_en_historial(&mut self, i: usize, cuenta: &String, pago: Pago)
        requires
            i < old(self).pagos.len(),
        ensures
            final(self)@ == (TandaDappV {
                pagos: old(self)@.pagos.update(
                    i as int,
                    historial_con_pago(old(self)@.pagos[i as int], cuenta@, pago@),
                ),
                ..old(self)@
            }),
    {
        let ghost antes = self@;
        let ghost hs = antes.pagos[i as int];
        match self.buscar_historial(i, cuenta) {
            Some(j) => {
                self.pagos[i][j].pagos.push(pago);
                proof {
                    assert(self.pagos@[i as int]@[j as int]@.pagos =~= hs[j as int].pagos.push(pago@));
                    assert(vistas_de_historiales(self.pagos@[i as int]@) =~= historial_con_pago(
                        hs,
                        cuenta@,
                        pago@,
                    ));
                }
            },
            None => {
                let mut pagos: Vec<Pago> = Vec::new();
                pagos.push(pago);
                let nuevo = HistorialCuenta { cuenta: cuenta.clone(), pagos };
                assert(nuevo@.pagos =~= seq![pago@]);
                self.pagos[i].push(nuevo);
                proof {
                    assert(vistas_de_historiales(self.pagos@[i as int]@) =~= historial_con_pago(
                        hs,
                        cuenta@,
                        pago@,
                    ));
                }
            },
        }
        assert(self@.pagos =~= antes.pagos.update(i as int, historial_con_pago(hs, cuenta@, pago@)));
    }

    /// Takes the contribution of `solicitante` to the group `clave` and gives
    /// back the position of the cycle that it went to.
    ///
    /// `deposito` is what came with the request, in the smallest unit of
    /// NEAR, and `marca_de_tiempo` the clock reading, in nanoseconds. On
    /// failure nothing changes.
    pub fn agregar_integrante_pago(
        &mut self,
        clave: &String,
        solicitante: &String,
        deposito: u128,
        marca_de_tiempo: u64,
    ) -> (resultado: Result<usize, Error>)
        requires
            old(self).wf(),
        ensures
            match resultado {
                Ok(k) => {
                    &&& old(self)@.contribucion(clave@, solicitante@, deposito, marca_de_tiempo)
                        == Ok::<TandaDappV, Error>(final(self)@)
                    &&& old(self)@.periodos_tanda[old(self)@.indice_de(clave@)] matches Some(ps)
                        && k == periodo_a_contribuir(ps, solicitante@)
                },
                Err(e) => old(self)@.contribucion(clave@, solicitante@, deposito, marca_de_tiempo)
                    == Err::<TandaDappV, Error>(e) && final(self)@ == old(self)@,
            },
            final(self).wf(),
    {
        let i = match self.buscar(clave) {
            Some(i) => i,
            None => {
                return Err(Error::TandaInexistente);
            },
        };
        let ghost antes = self@;
        let ghost t = antes.tandas[i as int];
        assert(self.tandas@[i as int]@ == t);
        assert(antes.grupo_valido(i as int));
        if self.periodos_tanda[i].is_none() {
            return Err(Error::PeriodosNoInicializados);
        }
        if !self.tandas[i].es_integrante(solicitante) {
            return Err(Error::NoEsIntegrante);
        }
        let monto = self.tandas[i].monto;
        if deposito != one_near() * (monto as u128) {
            return Err(Error::MontoIncorrecto);
        }
        let ghost ps = antes.periodos_tanda[i as int].unwrap();
        let debe = match &self.periodos_tanda[i] {
            Some(periodos) => siguiente_sin_pago(periodos, solicitante),
            None => None,
        };
        if debe.is_none() {
            return Err(Error::PagosCompletados);
        }
        let hoy = match calcular_inicio(marca_de_tiempo) {
            Ok(f) => f,
            Err(e) => {
                return Err(e);
            },
        };
        let anotado = match &mut self.periodos_tanda[i] {
            Some(periodos) => anotar_pago(periodos, &self.tandas[i], solicitante),
            None => Err(Error::PeriodosNoInicializados),
        };
        let k = match anotado {
            Ok(k) => k,
            Err(e) => {
                assert(self@.periodos_tanda =~= antes.periodos_tanda);
                return Err(e);
            },
        };
        let ghost medio = self@;
        let pago = Pago::new(monto, hoy);
        self.anotar_en_historial(i, solicitante, pago);
        proof {
            let qs = ps.update(k as int, ps[k as int].con_pago(solicitante@, t));
            assert(medio.periodos_tanda =~= antes.periodos_tanda.update(i as int, Some(qs)));
            lema_primero_que(ps, falta_pago_de(solicitante@));
            assert(ps[k as int].valido(t));
            lema_pago_valido(ps[k as int], t, solicitante@);
            lema_cambio_valido(ps, t, k as int, ps[k as int].con_pago(solicitante@, t));
            lema_historial_con_pago(antes.pagos[i as int], solicitante@, pago@);
            lema_cambio_de_grupo(antes, self@, i as int);
        }
        Ok(k)
    }

    /// Says whether the cycle at `indice` of the group `clave` has
    /// everything: the whole amount from every place of the group. The cycle
    /// is marked complete if it has; in every state of the ledger it already
    /// is, so nothing changes.
    ///
    /// Fails with `TandaInexistente`, `PeriodosNoInicializados` or, where the
    /// group has no cycle at `indice`, `PeriodoInexistente`.
    pub fn validar_pago_tanda(&mut self, clave: &String, indice: i64) -> (resultado: Result<
        bool,
        Error,
    >)
        requires
            old(self).wf(),
        ensures
            final(self)@ == old(self)@,
            final(self).wf(),
            match resultado {
                Ok(completo) => {
                    &&& old(self)@.periodos_de(clave@) matches Ok(ps)
                    &&& 0 <= indice < ps.len()
                    &&& completo == ps[indice as int].recaudacion_completa(
                        old(self)@.tandas[old(self)@.indice_de(clave@)],
                    )
                    &&& completo == ps[indice as int].pagos_completos
                },
                Err(e) => match old(self)@.periodos_de(clave@) {
                    Err(f) => e == f,
                    Ok(ps) => e == Error::PeriodoInexistente && !(0 <= indice < ps.len()),
                },
            },
    {
        let i = match self.buscar(clave) {
            Some(i) => i,
            None => {
                return Err(Error::TandaInexistente);
            },
        };
        let ghost antes = self@;
        let ghost t = antes.tandas[i as int];
        assert(self.tandas@[i as int]@ == t);
        assert(antes.grupo_valido(i as int));
        let monto = self.tandas[i].monto;
        let num = self.tandas[i].num_integrantes;
        let resultado = match &mut self.periodos_tanda[i] {
            None => Err(Error::PeriodosNoInicializados),
            Some(periodos) => {
                let ghost ps = vistas_de_periodos(periodos@);
                if indice < 0 || indice as u64 >= periodos.len() as u64 {
                    Err(Error::PeriodoInexistente)
                } else {
                    let k = indice as usize;
                    assert(periodos@[k as int]@ == ps[k as int]);
                    assert(ps[k as int].valido(t));
                    assert(monto as int * num as int <= 0xffff_ffff * 0xffff_ffff)
                        by (nonlinear_arith)
                        requires
                            0 <= monto <= 0xffff_ffff,
                            0 <= num <= 0xffff_ffff,
                    ;
                    let completo = periodos[k].cantidad_recaudada == monto as u64 * num as u64
                        && periodos[k].integrantes_pagados.len() == num as usize;
                    if completo {
                        periodos[k].pagos_completos = true;
                        assert(periodos@[k as int]@ == ps[k as int]);
                    }
                    assert(vistas_de_periodos(periodos@) =~= ps);
                    Ok(completo)
                }
            },
        };
        assert(self@.periodos_tanda =~= antes.periodos_tanda);
        resultado
    }

    /// Gives the turn `num_turno`, counted from 1, of the group `clave` to
    /// `solicitante`. On failure nothing changes.
    pub fn escoger_turno(&mut self, clave: &String, solicitante: &String, num_turno: usize) -> (resultado:
        Result<(), Error>)
        requires
            old(self).wf(),
        ensures
            match resultado {
                Ok(()) => old(self)@.reclamo(clave@, solicitante@, num_turno as int) == Ok::<
                    TandaDappV,
                    Error,
                >(final(self)@),
                Err(e) => old(self)@.reclamo(clave@, solicitante@, num_turno as int) == Err::<
                    TandaDappV,
                    Error,
                >(e) && final(self)@ == old(self)@,
            },
            final(self).wf(),
    {
        let i = match self.buscar(clave) {
            Some(i) => i,
            None => {
                return Err(Error::TandaInexistente);
            },
        };
        let ghost antes = self@;
        let ghost t = antes.tandas[i as int];
        assert(self.tandas@[i as int]@ == t);
        assert(antes.grupo_valido(i as int));
        if !self.tandas[i].es_integrante(solicitante) {
            return Err(Error::NoEsIntegrante);
        }
        let hecho = match &mut self.periodos_tanda[i] {
            Some(periodos) => tomar_turno(periodos, num_turno, solicitante),
            None => Err(Error::PeriodosNoInicializados),
        };
        match hecho {
            Ok(()) => {
                proof {
                    let ps = antes.periodos_tanda[i as int].unwrap();
                    let k = num_turno - 1;
                    let p = ps[k].con_turno(solicitante@);
                    assert(ps[k].valido(t));
                    assert(!ps[k].tanda_pagada);
                    assert(self@.periodos_tanda =~= antes.periodos_tanda.update(
                        i as int,
                        Some(ps.update(k, p)),
                    ));
                    lema_cambio_valido(ps, t, k, p);
                    lema_cambio_de_grupo(antes, self@, i as int);
                }
                Ok(())
            },
            Err(e) => {
                assert(self@.periodos_tanda =~= antes.periodos_tanda);
                Err(e)
            },
        }
    }

    /// Pays out the cycle at `indice` of the group `clave`: marks it as paid
    /// out and says what is to be sent to whom, namely everything that the
    /// cycle collected to the member who holds its turn. On failure nothing
    /// changes.
    pub fn pagar_tanda(&mut self, clave: &String, indice: i64) -> (resultado: Result<
        Transferencia,
        Error,
    >)
        requires
            old(self).wf(),
        ensures
            match resultado {
                Ok(pago) => {
                    &&& old(self)@.liquidacion(clave@, indice as int) == Ok::<TandaDappV, Error>(
                        final(self)@,
                    )
                    &&& old(self)@.periodos_de(clave@) matches Ok(ps)
                    &&& ps[indice as int].pagos_completos
                    &&& ps[indice as int].tiene_turno()
                    &&& !ps[indice as int].tanda_pagada
                    &&& pago@.destinatario == ps[indice as int].usuario_en_turno
                    &&& pago@.monto == ps[indice as int].cantidad_recaudada
                },
                Err(e) => old(self)@.liquidacion(clave@, indice as int) == Err::<TandaDappV, Error>(
                    e,
                ) && final(self)@ == old(self)@,
            },
            final(self).wf(),
    {
        let i = match self.buscar(clave) {
            Some(i) => i,
            None => {
                return Err(Error::TandaInexistente);
            },
        };
        let ghost antes = self@;
        let ghost t = antes.tandas[i as int];
        assert(antes.grupo_valido(i as int));
        let hecho = match &mut self.periodos_tanda[i] {
            Some(periodos) => liquidar_periodo(periodos, indice),
            None => Err(Error::PeriodosNoInicializados),
        };
        match hecho {
            Ok(pago) => {
                proof {
                    let ps = antes.periodos_tanda[i as int].unwrap();
                    let p = ps[indice as int].liquidado();
                    assert(ps[indice as int].valido(t));
                    assert(self@.periodos_tanda =~= antes.periodos_tanda.update(
                        i as int,
                        Some(ps.update(indice as int, p)),
                    ));
                    lema_cambio_valido(ps, t, indice as int, p);
                    lema_cambio_de_grupo(antes, self@, i as int);
                }
                Ok(pago)
            },
            Err(e) => {
                assert(self@.periodos_tanda =~= antes.periodos_tanda);
                Err(e)
            },
        }
    }

    /// Lets the group `clave` run, from today on. `marca_de_tiempo` is the
    /// clock reading, in nanoseconds. On failure nothing changes.
    pub fn activar_tanda(&mut self, clave: &String, solicitante: &String, marca_de_tiempo: u64) -> (resultado:
        Result<(), Error>)
        requires
            old(self).wf(),
        ensures
            match resultado {
                Ok(()) => old(self)@.activacion(clave@, solicitante@, marca_de_tiempo) == Ok::<
                    TandaDappV,
                    Error,
                >(final(self)@),
                Err(e) => old(self)@.activacion(clave@, solicitante@, marca_de_tiempo) == Err::<
                    TandaDappV,
                    Error,
                >(e) && final(self)@ == old(self)@,
            },
            final(self).wf(),
    {
        let i = match self.buscar(clave) {
            Some(i) => i,
            None => {
                return Err(Error::TandaInexistente);
            },
        };
        let ghost antes = self@;
        let ghost t = antes.tandas[i as int];
        assert(self.tandas@[i as int]@ == t);
        assert(antes.grupo_valido(i as int));
        if !(self.tandas[i].creador == *solicitante) {
            return Err(Error::SinAutorizacion);
        }
        if self.tandas[i].activa {
            return Err(Error::YaActiva);
        }
        if !self.tandas[i].llena() {
            return Err(Error::FaltanIntegrantes);
        }
        let hoy = match calcular_inicio(marca_de_tiempo) {
            Ok(f) => f,
            Err(e) => {
                return Err(e);
            },
        };
        if !(self.tandas[i].fecha_inicio == hoy) {
            let fin = match fecha_final_de(
                hoy.as_str(),
                self.tandas[i].num_integrantes,
                self.tandas[i].periodo,
            ) {
                Ok(f) => f,
                Err(e) => {
                    return Err(e);
                },
            };
            let hecho = match &mut self.periodos_tanda[i] {
                Some(periodos) => regenerar_periodos(periodos, hoy.as_str(), self.tandas[i].periodo),
                None => Err(Error::PeriodosNoInicializados),
            };
            match hecho {
                Ok(()) => {},
                Err(e) => {
                    assert(self@.periodos_tanda =~= antes.periodos_tanda);
                    return Err(e);
                },
            }
            self.tandas[i].fecha_inicio = hoy;
            self.tandas[i].fecha_final = fin;
            self.tandas[i].activa = true;
            self.tandas[i].estado = String::from_str("Activa");
            proof {
                let u = t.con_fechas(hoy@, fin@).activada();
                let ps = antes.periodos_tanda[i as int].unwrap();
                let qs = periodos_regenerados(ps, hoy@, t.periodo).unwrap();
                assert(self.tandas@[i as int]@ == u);
                assert(self@.tandas =~= antes.tandas.update(i as int, u));
                assert(self@.periodos_tanda =~= antes.periodos_tanda.update(i as int, Some(qs)));
                lema_regenerados_en_orden(ps, qs, u);
                lema_validez_trasladada(ps, qs, t, u);
                lema_cambio_de_grupo(antes, self@, i as int);
            }
        } else {
            self.tandas[i].activa = true;
            self.tandas[i].estado = String::from_str("Activa");
            proof {
                let u = t.activada();
                assert(self.tandas@[i as int]@ == u);
                assert(self@.tandas =~= antes.tandas.update(i as int, u));
                match antes.periodos_tanda[i as int] {
                    Some(ps) => {
                        lema_validez_trasladada(ps, ps, t, u);
                    },
                    None => {},
                }
                lema_cambio_de_grupo(antes, self@, i as int);
            }
        }
        Ok(())
    }

    /// Computes the dates of the cycles of the group `clave` anew from its
    /// first day. Everything else that the cycles hold stays. On failure
    /// nothing changes.
    pub fn regenerar_periodos(&mut self, clave: &String, solicitante: &String) -> (resultado: Result<
        (),
        Error,
    >)
        requires
            old(self).wf(),
        ensures
            match resultado {
                Ok(()) => old(self)@.regeneracion(clave@, solicitante@) == Ok::<TandaDappV, Error>(
                    final(self)@,
                ),
                Err(e) => old(self)@.regeneracion(clave@, solicitante@) == Err::<TandaDappV, Error>(
                    e,
                ) && final(self)@ == old(self)@,
            },
            final(self).wf(),
    {
        let i = match self.buscar(clave) {
            Some(i) => i,
            None => {
                return Err(Error::TandaInexistente);
            },
        };
        let ghost antes = self@;
        let ghost t = antes.tandas[i as int];
        assert(self.tandas@[i as int]@ == t);
        assert(antes.grupo_valido(i as int));
        if !(self.tandas[i].creador == *solicitante) {
            return Err(Error::SinAutorizacion);
        }
        let hecho = match &mut self.periodos_tanda[i] {
            Some(periodos) => regenerar_periodos(
                periodos,
                self.tandas[i].fecha_inicio.as_str(),
                self.tandas[i].periodo,
            ),
            None => Err(Error::PeriodosNoInicializados),
        };
        match hecho {
            Ok(()) => {
                proof {
                    let ps = antes.periodos_tanda[i as int].unwrap();
                    let qs = periodos_regenerados(ps, t.fecha_inicio, t.periodo).unwrap();
                    assert(self@.periodos_tanda =~= antes.periodos_tanda.update(i as int, Some(qs)));
                    lema_regenerados_en_orden(ps, qs, t);
                    lema_validez_trasladada(ps, qs, t, t);
                    lema_cambio_de_grupo(antes, self@, i as int);
                }
                Ok(())
            },
            Err(e) => {
                assert(self@.periodos_tanda =~= antes.periodos_tanda);
                Err(e)
            },
        }
    }

    /// Changes the name and, while the group `clave` does not run and nobody
    /// has joined it, the defining data of the group, and gives the group
    /// back as it then is. On failure nothing changes.
    pub fn editar_tanda(
        &mut self,
        clave: &String,
        solicitante: &String,
        nombre: Option<String>,
        num_integrantes: Option<u32>,
        monto: Option<u32>,
        periodo: Option<u32>,
        fecha_inicio: Option<String>,
    ) -> (resultado: Result<Tanda, Error>)
        requires
            old(self).wf(),
        ensures
            match resultado {
                Ok(t) => {
                    &&& old(self)@.edicion(
                        clave@,
                        solicitante@,
                        vista_de_texto(nombre),
                        num_integrantes,
                        monto,
                        periodo,
                        vista_de_texto(fecha_inicio),
                    ) == Ok::<TandaDappV, Error>(final(self)@)
                    &&& t@ == final(self)@.tandas[old(self)@.indice_de(clave@)]
                },
                Err(e) => old(self)@.edicion(
                    clave@,
                    solicitante@,
                    vista_de_texto(nombre),
                    num_integrantes,
                    monto,
                    periodo,
                    vista_de_texto(fecha_inicio),
                ) == Err::<TandaDappV, Error>(e) && final(self)@ == old(self)@,
            },
            final(self).wf(),
    {
        let i = match self.buscar(clave) {
            Some(i) => i,
            None => {
                return Err(Error::TandaInexistente);
            },
        };
        let ghost antes = self@;
        let ghost t0 = antes.tandas[i as int];
        assert(self.tandas@[i as int]@ == t0);
        assert(antes.grupo_valido(i as int));
        if !(self.tandas[i].creador == *solicitante) {
            return Err(Error::SinAutorizacion);
        }
        let nueva = match self.tandas[i].editada(nombre, num_integrantes, monto, periodo, fecha_inicio) {
            Ok(t) => t,
            Err(e) => {
                return Err(e);
            },
        };
        let ghost t = t0.con_nombre(vista_de_texto(nombre));
        if !(!nueva.activa && nueva.integrantes.len() == 0) {
            assert(nueva@ == t);
            self.tandas[i] = nueva;
            proof {
                assert(self@.tandas =~= antes.tandas.update(i as int, t));
                match antes.periodos_tanda[i as int] {
                    Some(ps) => {
                        lema_validez_trasladada(ps, ps, t0, t);
                    },
                    None => {},
                }
                lema_cambio_de_grupo(antes, self@, i as int);
            }
            return Ok(self.tandas[i].copia());
        }
        let ghost w = nueva@;
        assert(w.valida());
        if self.periodos_tanda[i].is_some() {
            let ps = match generar_periodos(
                nueva.fecha_inicio.as_str(),
                nueva.periodo,
                nueva.num_integrantes as usize,
            ) {
                Ok(ps) => ps,
                Err(e) => {
                    return Err(e);
                },
            };
            let ghost qs = vistas_de_periodos(ps@);
            self.periodos_tanda[i] = Some(ps);
            self.tandas[i] = nueva;
            proof {
                lema_periodos_nuevos_validos(w, qs);
                assert(self@.tandas =~= antes.tandas.update(i as int, w));
                assert(self@.periodos_tanda =~= antes.periodos_tanda.update(i as int, Some(qs)));
                lema_cambio_de_grupo(antes, self@, i as int);
            }
        } else {
            self.tandas[i] = nueva;
            proof {
                assert(self@.tandas =~= antes.tandas.update(i as int, w));
                lema_cambio_de_grupo(antes, self@, i as int);
            }
        }
        Ok(self.tandas[i].copia())
    }

    /// Calls the group `clave` off and gives it back as it then is. On
    /// failure nothing changes.
    pub fn cancelar_tanda(&mut self, clave: &String, solicitante: &String) -> (resultado: Result<
        Tanda,
        Error,
    >)
        requires
            old(self).wf(),
        ensures
            match resultado {
                Ok(t) => {
                    &&& old(self)@.cancelacion(clave@, solicitante@) == Ok::<TandaDappV, Error>(
                        final(self)@,
                    )
                    &&& t@ == final(self)@.tandas[old(self)@.indice_de(clave@)]
                },
                Err(e) => old(self)@.cancelacion(clave@, solicitante@) == Err::<TandaDappV, Error>(e)
                    && final(self)@ == old(self)@,
            },
            final(self).wf(),
    {
        let i = match self.buscar(clave) {
            Some(i) => i,
            None => {
                return Err(Error::TandaInexistente);
            },
        };
        let ghost antes = self@;
        let ghost t = antes.tandas[i as int];
        assert(self.tandas@[i as int]@ == t);
        assert(antes.grupo_valido(i as int));
        if !(self.tandas[i].creador == *solicitante) {
            return Err(Error::SinAutorizacion);
        }
        if self.pagos[i].len() > 0 {
            return Err(Error::EnProgreso);
        }
        self.tandas[i].activa = false;
        self.tandas[i].estado = String::from_str("Cancelada");
        proof {
            let u = t.cancelada();
            assert(self.tandas@[i as int]@ == u);
            assert(self@.tandas =~= antes.tandas.update(i as int, u));
            match antes.periodos_tanda[i as int] {
                Some(ps) => {
                    lema_validez_trasladada(ps, ps, t, u);
                },
                None => {},
            }
            lema_cambio_de_grupo(antes, self@, i as int);
        }
        Ok(self.tandas[i].copia())
    }

    /// The group with the key `clave`, if there is one.
    pub fn consultar_tanda(&self, clave: &String) -> (tanda: Option<Tanda>)
        ensures
            match tanda {
                Some(t) => self@.indice_de(clave@) >= 0 && t@ == self@.tandas[self@.indice_de(
                    clave@,
                )],
                None => self@.indice_de(clave@) == -1,
            },
    {
        match self.buscar(clave) {
            Some(i) => Some(self.tandas[i].copia()),
            None => None,
        }
    }

    /// The page of the newest groups: the last [`MAX_PAGE_SIZE`] that were
    /// created, or all where there are fewer, oldest first.
    pub fn consultar_tandas(&self) -> (pagina: Vec<Option<Tanda>>)
        ensures
            pagina.len() == self@.tamano_de_pagina(),
            forall|k: int|
                #![trigger pagina@[k]]
                0 <= k < pagina.len() ==> (pagina@[k] matches Some(t) && t@
                    == self@.tandas[self@.tandas.len() - pagina.len() + k]),
    {
        let total = self.tandas.len();
        let num_tandas: usize = if total < MAX_PAGE_SIZE as usize {
            total
        } else {
            MAX_PAGE_SIZE as usize
        };
        let start_index = total - num_tandas;
        let mut pagina: Vec<Option<Tanda>> = Vec::new();
        let mut n: usize = 0;
        while n < num_tandas
            invariant
                n <= num_tandas,
                num_tandas <= total,
                total == self.tandas.len(),
                start_index == total - num_tandas,
                pagina.len() == n,
                forall|k: int|
                    #![trigger pagina@[k]]
                    0 <= k < n ==> (pagina@[k] matches Some(t) && t@
                        == self@.tandas[start_index + k]),
            decreases num_tandas - n,
        {
            pagina.push(Some(self.tandas[n + start_index].copia()));
            n += 1;
        }
        pagina
    }

    /// Every group, oldest first.
    pub fn consultar_tandas_todas(&self) -> (todas: Vec<Tanda>)
        ensures
            vistas_de_tandas(todas@) == self@.tandas,
    {
        let mut todas: Vec<Tanda> = Vec::new();
        let mut i: usize = 0;
        while i < self.tandas.len()
            invariant
                i <= self.tandas.len(),
                todas.len() == i,
                forall|j: int| 0 <= j < i ==> todas@[j]@ == self.tandas@[j]@,
            decreases self.tandas.len() - i,
        {
            todas.push(self.tandas[i].copia());
            i += 1;
        }
        assert(vistas_de_tandas(todas@) =~= self@.tandas);
        todas
    }

    /// The groups with the keys of `lista_tandas`, in that order.
    ///
    /// Fails with `TandaInexistente` exactly when one of the keys is unknown.
    pub fn buscar_tandas(&self, lista_tandas: &Vec<String>) -> (resultado: Result<Vec<Tanda>, Error>)
        ensures
            match resultado {
                Ok(tandas) => {
                    &&& tandas.len() == lista_tandas.len()
                    &&& forall|k: int|
                        #![trigger lista_tandas@[k]]
                        0 <= k < tandas.len() ==> self@.indice_de(lista_tandas@[k]@) >= 0
                            && tandas@[k]@ == self@.tandas[self@.indice_de(lista_tandas@[k]@)]
                },
                Err(e) => e == Error::TandaInexistente && exists|k: int|
                    0 <= k < lista_tandas.len() && self@.indice_de(#[trigger] lista_tandas@[k]@) < 0,
            },
    {
        let mut tandas: Vec<Tanda> = Vec::new();
        let mut n: usize = 0;
        while n < lista_tandas.len()
            invariant
                n <= lista_tandas.len(),
                tandas.len() == n,
                forall|k: int|
                    #![trigger lista_tandas@[k]]
                    0 <= k < n ==> self@.indice_de(lista_tandas@[k]@) >= 0 && tandas@[k]@
                        == self@.tandas[self@.indice_de(lista_tandas@[k]@)],
            decreases lista_tandas.len() - n,
        {
            match self.consultar_tanda(&lista_tandas[n]) {
                Some(t) => {
                    let ghost previas = tandas@;
                    tandas.push(t);
                    assert forall|k: int| #![trigger lista_tandas@[k]] 0 <= k < n + 1 implies self@.indice_de(
                        lista_tandas@[k]@,
                    ) >= 0 && tandas@[k]@ == self@.tandas[self@.indice_de(lista_tandas@[k]@)] by {
                        if k < n {
                            assert(tandas@[k] == previas[k]);
                        }
                    }
                },
                None => {
                    assert(self@.indice_de(lista_tandas@[n as int]@) < 0);
                    return Err(Error::TandaInexistente);
                },
            }
            n += 1;
        }
        Ok(tandas)
    }

    /// The members of the group `clave`, in the order in which they joined;
    /// none where the group is unknown.
    pub fn consultar_integrantes(&self, clave: &String) -> (integrantes: Vec<String>)
        ensures
            vistas(integrantes@) == self@.integrantes_de(clave@),
    {
        match self.buscar(clave) {
            Some(i) => {
                assert(self.tandas@[i as int]@ == self@.tandas[i as int]);
                copiar_cadenas(&self.tandas[i].integrantes)
            },
            None => {
                let nadie: Vec<String> = Vec::new();
                assert(vistas(nadie@) =~= Seq::<Seq<char>>::empty());
                nadie
            },
        }
    }

    /// Whether `id_cuenta` is a member of the group `id_tanda`.
    pub fn validar_integrante(&self, id_tanda: &String, id_cuenta: &String) -> (valido: bool)
        ensures
            valido == self@.es_integrante(id_tanda@, id_cuenta@),
    {
        match self.buscar(id_tanda) {
            Some(i) => {
                assert(self.tandas@[i as int]@ == self@.tandas[i as int]);
                self.tandas[i].es_integrante(id_cuenta)
            },
            None => false,
        }
    }

    /// The accounts that have created or joined a group, in the order in
    /// which they first did.
    pub fn consultar_usuarios(&self) -> (cuentas: Vec<String>)
        ensures
            vistas(cuentas@) == self@.usuarios.map_values(|u: UsuarioV| u.cuenta),
    {
        let mut cuentas: Vec<String> = Vec::new();
        let mut i: usize = 0;
        while i < self.usuarios.len()
            invariant
                i <= self.usuarios.len(),
                cuentas.len() == i,
                forall|j: int| 0 <= j < i ==> cuentas@[j]@ == self.usuarios@[j]@.cuenta,
            decreases self.usuarios.len() - i,
        {
            cuentas.push(self.usuarios[i].cuenta.clone());
            i += 1;
        }
        assert(vistas(cuentas@) =~= self@.usuarios.map_values(|u: UsuarioV| u.cuenta));
        cuentas
    }

    /// The keys of the groups that an account has created, oldest first: the
    /// account `id_cuenta` or, where none is named, `solicitante`.
    pub fn consultar_tandas_creadas(&self, id_cuenta: Option<String>, solicitante: String) -> (claves:
        Vec<String>)
        ensures
            vistas(claves@) == self@.creadas_por(
                TandaDappV::cuenta_de(vista_de_texto(id_cuenta), solicitante@),
            ),
    {
        let cuenta = match id_cuenta {
            Some(c) => c,
            None => solicitante,
        };
        match self.buscar_usuario(&cuenta) {
            Some(j) => {
                assert(self.usuarios@[j as int]@ == self@.usuarios[j as int]);
                copiar_cadenas(&self.usuarios[j].tandas_creadas)
            },
            None => {
                let claves: Vec<String> = Vec::new();
                assert(vistas(claves@) =~= Seq::<Seq<char>>::empty());
                claves
            },
        }
    }

    /// The keys of the groups that an account has joined, oldest first: the
    /// account `id_cuenta` or, where none is named, `solicitante`.
    pub fn consultar_tandas_inscritas(&self, id_cuenta: Option<String>, solicitante: String) -> (claves:
        Vec<String>)
        ensures
            vistas(claves@) == self@.inscritas_de(
                TandaDappV::cuenta_de(vista_de_texto(id_cuenta), solicitante@),
            ),
    {
        let cuenta = match id_cuenta {
            Some(c) => c,
            None => solicitante,
        };
        match self.buscar_usuario(&cuenta) {
            Some(j) => {
                assert(self.usuarios@[j as int]@ == self@.usuarios[j as int]);
                copiar_cadenas(&self.usuarios[j].tandas_inscritas)
            },
            None => {
                let claves: Vec<String> = Vec::new();
                assert(vistas(claves@) =~= Seq::<Seq<char>>::empty());
                claves
            },
        }
    }

    /// The cycles of the group `clave`; none where the group is unknown or
    /// has no cycles yet.
    pub fn consultar_periodos(&self, clave: &String) -> (periodos: Option<Vec<Periodo>>)
        requires
            self.wf(),
        ensures
            match periodos {
                Some(ps) => self@.periodos_de(clave@) == Ok::<Seq<PeriodoV>, Error>(
                    vistas_de_periodos(ps@),
                ),
                None => self@.periodos_de(clave@) is Err,
            },
    {
        let i = match self.buscar(clave) {
            Some(i) => i,
            None => {
                return None;
            },
        };
        match &self.periodos_tanda[i] {
            Some(ps) => Some(copiar_periodos(ps)),
            None => None,
        }
    }

    /// The position of the cycle that an account owes next in the group
    /// `clave`: the first one to which it has not contributed, whatever the
    /// dates of the cycle; -1 where it owes none. The account is `id_cuenta`
    /// or, where none is named, `solicitante`.
    ///
    /// Fails with `TandaInexistente` or `PeriodosNoInicializados`.
    pub fn validar_periodo(&self, clave: &String, id_cuenta: Option<String>, solicitante: String) -> (resultado:
        Result<i64, Error>)
        requires
            self.wf(),
        ensures
            match resultado {
                Ok(k) => self@.periodos_de(clave@) matches Ok(ps) && k == periodo_a_contribuir(
                    ps,
                    TandaDappV::cuenta_de(vista_de_texto(id_cuenta), solicitante@),
                ),
                Err(e) => self@.periodos_de(clave@) == Err::<Seq<PeriodoV>, Error>(e),
            },
    {
        let cuenta = match id_cuenta {
            Some(c) => c,
            None => solicitante,
        };
        let i = match self.buscar(clave) {
            Some(i) => i,
            None => {
                return Err(Error::TandaInexistente);
            },
        };
        assert(self@.grupo_valido(i as int));
        match &self.periodos_tanda[i] {
            Some(ps) => match siguiente_sin_pago(ps, &cuenta) {
                Some(k) => {
                    proof {
                        lema_primero_que(vistas_de_periodos(ps@), falta_pago_de(cuenta@));
                    }
                    Ok(k as i64)
                },
                None => Ok(-1),
            },
            None => Err(Error::PeriodosNoInicializados),
        }
    }

    /// The position of the cycle of the group `clave` that is paid out next:
    /// the first one that was not; -1 where all were.
    ///
    /// Fails with `TandaInexistente` or `PeriodosNoInicializados`.
    pub fn obtener_periodo_a_pagar(&self, clave: &String) -> (resultado: Result<i64, Error>)
        requires
            self.wf(),
        ensures
            match resultado {
                Ok(k) => self@.periodos_de(clave@) matches Ok(ps) && k == periodo_a_liquidar(ps),
                Err(e) => self@.periodos_de(clave@) == Err::<Seq<PeriodoV>, Error>(e),
            },
    {
        let i = match self.buscar(clave) {
            Some(i) => i,
            None => {
                return Err(Error::TandaInexistente);
            },
        };
        assert(self@.grupo_valido(i as int));
        match &self.periodos_tanda[i] {
            Some(ps) => match siguiente_sin_liquidar(ps) {
                Some(k) => {
                    proof {
                        lema_primero_que(vistas_de_periodos(ps@), sin_liquidar());
                    }
                    Ok(k as i64)
                },
                None => Ok(-1),
            },
            None => Err(Error::PeriodosNoInicializados),
        }
    }

    /// What an account has contributed to the group `clave`, oldest first:
    /// the account `id_cuenta` or, where none is named, `solicitante`.
    /// Nothing where the group is unknown or the account has not contributed.
    pub fn consultar_integrante_pagos(
        &self,
        clave: &String,
        id_cuenta: Option<String>,
        solicitante: String,
    ) -> (pagos: Vec<Pago>)
        requires
            self.wf(),
        ensures
            vistas_de_pagos(pagos@) == self@.pagos_de(
                clave@,
                TandaDappV::cuenta_de(vista_de_texto(id_cuenta), solicitante@),
            ),
    {
        let cuenta = match id_cuenta {
            Some(c) => c,
            None => solicitante,
        };
        let i = match self.buscar(clave) {
            Some(i) => i,
            None => {
                let nada: Vec<Pago> = Vec::new();
                assert(vistas_de_pagos(nada@) =~= Seq::<PagoV>::empty());
                return nada;
            },
        };
        match self.buscar_historial(i, &cuenta) {
            Some(j) => {
                assert(self.pagos@[i as int]@[j as int]@ == self@.pagos[i as int][j as int]);
                copiar_pagos(&self.pagos[i][j].pagos)
            },
            None => {
                let nada: Vec<Pago> = Vec::new();
                assert(vistas_de_pagos(nada@) =~= Seq::<PagoV>::empty());
                nada
            },
        }
    }

    /// The history of every group, oldest group first: for each its key and
    /// what each account has contributed to it.
    pub fn consultar_pagos(&self) -> (historiales: Vec<HistorialTanda>)
        requires
            self.wf(),
        ensures
            historiales.len() == self@.tandas.len(),
            forall|k: int|
                #![trigger historiales@[k]]
                0 <= k < historiales.len() ==> historiales@[k]@ == (HistorialTandaV {
                    clave: self@.tandas[k].id,
                    cuentas: self@.pagos[k],
                }),
    {
        let mut historiales: Vec<HistorialTanda> = Vec::new();
        let mut i: usize = 0;
        while i < self.tandas.len()
            invariant
                i <= self.tandas.len(),
                self.pagos.len() == self.tandas.len(),
                historiales.len() == i,
                forall|k: int|
                    #![trigger historiales@[k]]
                    0 <= k < i ==> historiales@[k]@ == (HistorialTandaV {
                        clave: self@.tandas[k].id,
                        cuentas: self@.pagos[k],
                    }),
            decreases self.tandas.len() - i,
        {
            historiales.push(
                HistorialTanda {
                    clave: self.tandas[i].id.clone(),
                    cuentas: copiar_historiales(&self.pagos[i]),
                },
            );
            i += 1;
        }
        historiales
    }
}

impl Default for TandaDapp {
    /// The ledger without groups and accounts.
    fn default() -> (dapp: TandaDapp)
        ensures
            dapp@ == TandaDappV::vacio(),
            dapp.wf(),
    {
        TandaDapp::new()
    }
}

} // verus!
