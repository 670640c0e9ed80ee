//! What the ledger holds, as mathematics: the model that the contracts of
//! the ledger's operations are stated over.

use crate::MAX_PAGE_SIZE;
use crate::busqueda::lema_primero_que;
use crate::busqueda::primero_que;
use crate::date_handling::fecha_mas_dias;
use crate::date_handling::inicio_del_dia;
use crate::date_handling::texto_de_instante;
use crate::error::Error;
use crate::periodos::error_de_liquidacion;
use crate::periodos::error_de_turno;
use crate::periodos::periodo_a_contribuir;
use crate::periodos::periodos_nuevos;
use crate::periodos::periodos_regenerados;
use crate::periodos::periodos_validos;
use crate::spec_one_near;
use crate::texto::decimal;
use crate::types::HistorialCuentaV;
use crate::types::PagoV;
use crate::types::PeriodoV;
use crate::types::Tanda;
use crate::types::TandaV;
use crate::types::UsuarioV;
use crate::types::dias_hasta_el_final;
use vstd::prelude::*;

verus! {

/// What a [`TandaDapp`] holds, as mathematics.
pub struct TandaDappV {
    /// The groups, oldest first.
    pub tandas: Seq<TandaV>,
    /// For each group, its cycles, once it has them.
    pub periodos_tanda: Seq<Option<Seq<PeriodoV>>>,
    /// The accounts that have created or joined a group, in the order in which
    /// they first did.
    pub usuarios: Seq<UsuarioV>,
    /// For each group, what each account has contributed to it, in the order
    /// in which the accounts first did.
    pub pagos: Seq<Seq<HistorialCuentaV>>,
}

/// The groups with the key `clave`.
pub open spec fn con_clave(clave: Seq<char>) -> spec_fn(TandaV) -> bool {
    |t: TandaV| t.id == clave
}

/// The records of the account `cuenta`.
pub open spec fn de_cuenta(cuenta: Seq<char>) -> spec_fn(UsuarioV) -> bool {
    |u: UsuarioV| u.cuenta == cuenta
}

/// The histories of the account `cuenta`.
pub open spec fn historial_de(cuenta: Seq<char>) -> spec_fn(HistorialCuentaV) -> bool {
    |h: HistorialCuentaV| h.cuenta == cuenta
}

/// No two histories of the list are of the same account.
pub open spec fn cuentas_distintas(hs: Seq<HistorialCuentaV>) -> bool {
    forall|i: int, j: int|
        0 <= i < hs.len() && 0 <= j < hs.len() && i != j ==> (#[trigger] hs[i]).cuenta != (
        #[trigger] hs[j]).cuenta
}

/// No two records of the list are of the same account.
pub open spec fn usuarios_distintos(us: Seq<UsuarioV>) -> bool {
    forall|i: int, j: int|
        0 <= i < us.len() && 0 <= j < us.len() && i != j ==> (#[trigger] us[i]).cuenta != (
        #[trigger] us[j]).cuenta
}

/// The history of a group after `cuenta` has made the contribution `pago`: it
/// comes last among the contributions of the account, and an account that
/// contributes for the first time comes last among the accounts.
pub open spec fn historial_con_pago(hs: Seq<HistorialCuentaV>, cuenta: Seq<char>, pago: PagoV) -> Seq<
    HistorialCuentaV,
> {
    let j = primero_que(hs, historial_de(cuenta));
    if j >= 0 {
        hs.update(j, HistorialCuentaV { pagos: hs[j].pagos.push(pago), ..hs[j] })
    } else {
        hs.push(HistorialCuentaV { cuenta, pagos: seq![pago] })
    }
}

/// A contribution keeps each account once in the history.
pub proof fn lema_historial_con_pago(hs: Seq<HistorialCuentaV>, cuenta: Seq<char>, pago: PagoV)
    requires
        cuentas_distintas(hs),
    ensures
        cuentas_distintas(historial_con_pago(hs, cuenta, pago)),
{
    lema_primero_que(hs, historial_de(cuenta));
}

impl TandaDappV {
    /// The ledger without groups and accounts.
    pub open spec fn vacio() -> TandaDappV {
        TandaDappV {
            tandas: Seq::empty(),
            periodos_tanda: Seq::empty(),
            usuarios: Seq::empty(),
            pagos: Seq::empty(),
        }
    }

    /// The position of the group with the key `clave`, or -1 where there is none.
    pub open spec fn indice_de(self, clave: Seq<char>) -> int {
        primero_que(self.tandas, con_clave(clave))
    }

    /// The position of the record of `cuenta`, or -1 where there is none.
    pub open spec fn indice_de_usuario(self, cuenta: Seq<char>) -> int {
        primero_que(self.usuarios, de_cuenta(cuenta))
    }

    /// The account that a question is about: the one that it names, or else
    /// the one that asks.
    pub open spec fn cuenta_de(id_cuenta: Option<Seq<char>>, solicitante: Seq<char>) -> Seq<char> {
        match id_cuenta {
            Some(c) => c,
            None => solicitante,
        }
    }

    /// What holds of the group at position `i`, its cycles and its history:
    /// its key is its position, the group is valid, its cycles, if it has any,
    /// are valid, and its history has each account once.
    pub open spec fn grupo_valido(self, i: int) -> bool {
        &&& self.tandas[i].id == decimal(i as nat)
        &&& self.tandas[i].valida()
        &&& self.periodos_tanda[i] matches Some(ps) ==> periodos_validos(ps, self.tandas[i])
        &&& cuentas_distintas(self.pagos[i])
    }

    /// What holds of the ledger in every state: each group has a place for
    /// its cycles and for its history, every group is valid, and each account
    /// has one record.
    pub open spec fn valido(self) -> bool {
        &&& self.periodos_tanda.len() == self.tandas.len()
        &&& self.pagos.len() == self.tandas.len()
        &&& forall|i: int| 0 <= i < self.tandas.len() ==> #[trigger] self.grupo_valido(i)
        &&& usuarios_distintos(self.usuarios)
    }

    /// The cycles of the group `clave`, or why there are none: the group
    /// must exist (`TandaInexistente`) and have its cycles
    /// (`PeriodosNoInicializados`).
    pub open spec fn periodos_de(self, clave: Seq<char>) -> Result<Seq<PeriodoV>, Error> {
        let i = self.indice_de(clave);
        if i < 0 {
            Err(Error::TandaInexistente)
        } else {
            match self.periodos_tanda[i] {
                None => Err(Error::PeriodosNoInicializados),
                Some(ps) => Ok(ps),
            }
        }
    }

    /// The members of the group `clave`, in the order in which they joined;
    /// none where the group is unknown.
    pub open spec fn integrantes_de(self, clave: Seq<char>) -> Seq<Seq<char>> {
        let i = self.indice_de(clave);
        if i >= 0 {
            self.tandas[i].integrantes
        } else {
            Seq::empty()
        }
    }

    /// Whether `cuenta` is a member of the group `clave`.
    pub open spec fn es_integrante(self, clave: Seq<char>, cuenta: Seq<char>) -> bool {
        self.indice_de(clave) >= 0 && self.tandas[self.indice_de(clave)].es_integrante(cuenta)
    }

    /// The keys of the groups that `cuenta` has created, oldest first; none
    /// where the account is unknown.
    pub open spec fn creadas_por(self, cuenta: Seq<char>) -> Seq<Seq<char>> {
        let j = self.indice_de_usuario(cuenta);
        if j >= 0 {
            self.usuarios[j].tandas_creadas
        } else {
            Seq::empty()
        }
    }

    /// The keys of the groups that `cuenta` has joined, oldest first; none
    /// where the account is unknown.
    pub open spec fn inscritas_de(self, cuenta: Seq<char>) -> Seq<Seq<char>> {
        let j = self.indice_de_usuario(cuenta);
        if j >= 0 {
            self.usuarios[j].tandas_inscritas
        } else {
            Seq::empty()
        }
    }

    /// What `cuenta` has contributed to the group `clave`, oldest first;
    /// nothing where the group is unknown or the account has not contributed.
    pub open spec fn pagos_de(self, clave: Seq<char>, cuenta: Seq<char>) -> Seq<PagoV> {
        let i = self.indice_de(clave);
        if i < 0 {
            Seq::empty()
        } else {
            let j = primero_que(self.pagos[i], historial_de(cuenta));
            if j < 0 {
                Seq::empty()
            } else {
                self.pagos[i][j].pagos
            }
        }
    }

    /// The number of groups on the page of the newest groups.
    pub open spec fn tamano_de_pagina(self) -> int {
        if self.tandas.len() < MAX_PAGE_SIZE as int {
            self.tandas.len() as int
        } else {
            MAX_PAGE_SIZE as int
        }
    }

    /// The records of the accounts after one more group was noted for
    /// `cuenta`, as created by it or as joined by it. An account that had no
    /// record gets one, after all the others.
    pub open spec fn usuarios_con(self, cuenta: Seq<char>, id_tanda: Seq<char>, creada: bool) -> Seq<
        UsuarioV,
    > {
        let i = self.indice_de_usuario(cuenta);
        if i >= 0 {
            self.usuarios.update(i, self.usuarios[i].con_tanda(id_tanda, creada))
        } else {
            self.usuarios.push(UsuarioV::nuevo(cuenta).con_tanda(id_tanda, creada))
        }
    }

    /// The ledger after one more group was noted for `cuenta`.
    pub open spec fn con_registro(self, cuenta: Seq<char>, id_tanda: Seq<char>, creada: bool) -> TandaDappV {
        TandaDappV { usuarios: self.usuarios_con(cuenta, id_tanda, creada), ..self }
    }

    /// What creating a group does to the ledger.
    ///
    /// At least one NEAR must come with the request (`DepositoInsuficiente`),
    /// and the data of the group must be in order, as [`Tanda::new`] checks
    /// it. The group gets the next free key, starts today, and has one cycle
    /// for each of its places; it is noted as created by `solicitante`.
    pub open spec fn alta(
        self,
        nombre: Seq<char>,
        num_integrantes: u32,
        monto: u32,
        periodo: u32,
        solicitante: Seq<char>,
        deposito: u128,
        marca_de_tiempo: u64,
    ) -> Result<TandaDappV, Error> {
        if deposito < spec_one_near() {
            Err(Error::DepositoInsuficiente)
        } else {
            match Tanda::spec_new(
                decimal(self.tandas.len()),
                solicitante,
                nombre,
                num_integrantes,
                monto,
                periodo,
                marca_de_tiempo,
            ) {
                Err(e) => Err(e),
                Ok(t) => match periodos_nuevos(t.fecha_inicio, periodo, num_integrantes as nat) {
                    Err(e) => Err(e),
                    Ok(ps) => Ok(
                        TandaDappV {
                            tandas: self.tandas.push(t),
                            periodos_tanda: self.periodos_tanda.push(Some(ps)),
                            usuarios: self.usuarios_con(solicitante, t.id, true),
                            pagos: self.pagos.push(Seq::empty()),
                        },
                    ),
                },
            }
        }
    }

    /// What giving a group its cycles does to the ledger: nothing where the
    /// group is unknown or has cycles already; else the group gets one cycle
    /// for each of its places, from its first day on.
    pub open spec fn inicializacion(self, clave: Seq<char>) -> Result<TandaDappV, Error> {
        let i = self.indice_de(clave);
        if i < 0 {
            Ok(self)
        } else {
            match self.periodos_tanda[i] {
                Some(_) => Ok(self),
                None => match periodos_nuevos(
                    self.tandas[i].fecha_inicio,
                    self.tandas[i].periodo,
                    self.tandas[i].num_integrantes as nat,
                ) {
                    Err(e) => Err(e),
                    Ok(ps) => Ok(
                        TandaDappV {
                            periodos_tanda: self.periodos_tanda.update(i, Some(ps)),
                            ..self
                        },
                    ),
                },
            }
        }
    }

    /// What joining a group does to the ledger.
    ///
    /// The group must exist (`TandaInexistente`), the account must not belong
    /// to it yet (`YaEsIntegrante`) and a place must be free (`TandaLlena`).
    /// The account gets a place, and the group is noted as joined by it.
    pub open spec fn ingreso(self, clave: Seq<char>, solicitante: Seq<char>) -> Result<
        TandaDappV,
        Error,
    > {
        let i = self.indice_de(clave);
        if i < 0 {
            Err(Error::TandaInexistente)
        } else if self.tandas[i].es_integrante(solicitante) {
            Err(Error::YaEsIntegrante)
        } else if self.tandas[i].llena() {
            Err(Error::TandaLlena)
        } else {
            Ok(
                TandaDappV {
                    tandas: self.tandas.update(i, self.tandas[i].con_integrante(solicitante)),
                    usuarios: self.usuarios_con(solicitante, self.tandas[i].id, false),
                    ..self
                },
            )
        }
    }

    /// What a contribution does to the ledger.
    ///
    /// The group must exist (`TandaInexistente`) and have its cycles
    /// (`PeriodosNoInicializados`), the account must belong to it
    /// (`NoEsIntegrante`), what came with the request must be exactly the
    /// amount of the group, in NEAR (`MontoIncorrecto`), the account must
    /// still owe a cycle (`PagosCompletados`), and today must be a date
    /// (`FechaFueraDeRango`). The contribution goes to the first cycle that
    /// the account owes, and is added to the history of the account.
    pub open spec fn contribucion(
        self,
        clave: Seq<char>,
        solicitante: Seq<char>,
        deposito: u128,
        marca_de_tiempo: u64,
    ) -> Result<TandaDappV, Error> {
        let i = self.indice_de(clave);
        if i < 0 {
            Err(Error::TandaInexistente)
        } else {
            let t = self.tandas[i];
            match self.periodos_tanda[i] {
                None => Err(Error::PeriodosNoInicializados),
                Some(ps) => if !t.es_integrante(solicitante) {
                    Err(Error::NoEsIntegrante)
                } else if deposito != spec_one_near() * t.monto {
                    Err(Error::MontoIncorrecto)
                } else {
                    let k = periodo_a_contribuir(ps, solicitante);
                    if k < 0 {
                        Err(Error::PagosCompletados)
                    } else {
                        match texto_de_instante(inicio_del_dia(marca_de_tiempo)) {
                            None => Err(Error::FechaFueraDeRango),
                            Some(hoy) => Ok(
                                TandaDappV {
                                    periodos_tanda: self.periodos_tanda.update(
                                        i,
                                        Some(ps.update(k, ps[k].con_pago(solicitante, t))),
                                    ),
                                    pagos: self.pagos.update(
                                        i,
                                        historial_con_pago(
                                            self.pagos[i],
                                            solicitante,
                                            PagoV { monto: t.monto, fecha: hoy },
                                        ),
                                    ),
                                    ..self
                                },
                            ),
                        }
                    }
                },
            }
        }
    }

    /// What claiming a turn does to the ledger.
    ///
    /// The group must exist (`TandaInexistente`), the account must belong to
    /// it (`NoEsIntegrante`), the group must have its cycles
    /// (`PeriodosNoInicializados`), the turn must be one of them, counted
    /// from 1 (`TurnoFueraDeRango`), and nobody may hold it yet
    /// (`TurnoTomado`). The account then holds the turn.
    pub open spec fn reclamo(self, clave: Seq<char>, solicitante: Seq<char>, num_turno: int) -> Result<
        TandaDappV,
        Error,
    > {
        let i = self.indice_de(clave);
        if i < 0 {
            Err(Error::TandaInexistente)
        } else if !self.tandas[i].es_integrante(solicitante) {
            Err(Error::NoEsIntegrante)
        } else {
            match self.periodos_tanda[i] {
                None => Err(Error::PeriodosNoInicializados),
                Some(ps) => match error_de_turno(ps, num_turno) {
                    Some(e) => Err(e),
                    None => Ok(
                        TandaDappV {
                            periodos_tanda: self.periodos_tanda.update(
                                i,
                                Some(ps.update(num_turno - 1, ps[num_turno - 1].con_turno(solicitante))),
                            ),
                            ..self
                        },
                    ),
                },
            }
        }
    }

    /// What paying a cycle out does to the ledger.
    ///
    /// The group must exist (`TandaInexistente`) and have its cycles
    /// (`PeriodosNoInicializados`); the cycle must be one of them
    /// (`PeriodoInexistente`), every member must have contributed to it
    /// (`PagosIncompletos`), somebody must hold its turn
    /// (`SinUsuarioEnTurno`), and it must not have been paid out before
    /// (`YaPagada`). The cycle is then marked as paid out.
    pub open spec fn liquidacion(self, clave: Seq<char>, indice: int) -> Result<TandaDappV, Error> {
        let i = self.indice_de(clave);
        if i < 0 {
            Err(Error::TandaInexistente)
        } else {
            match self.periodos_tanda[i] {
                None => Err(Error::PeriodosNoInicializados),
                Some(ps) => match error_de_liquidacion(ps, indice) {
                    Some(e) => Err(e),
                    None => Ok(
                        TandaDappV {
                            periodos_tanda: self.periodos_tanda.update(
                                i,
                                Some(ps.update(indice, ps[indice].liquidado())),
                            ),
                            ..self
                        },
                    ),
                },
            }
        }
    }

    /// What activating a group does to the ledger.
    ///
    /// The group must exist (`TandaInexistente`), only its creator may ask
    /// (`SinAutorizacion`), it must not run yet (`YaActiva`), every place must
    /// be taken (`FaltanIntegrantes`), and today must be a date
    /// (`FechaFueraDeRango`). A group that does not start today is moved to
    /// start today: its last day is computed anew, and so are the dates of
    /// its cycles, which it must have (`PeriodosNoInicializados`). Then the
    /// group runs.
    pub open spec fn activacion(
        self,
        clave: Seq<char>,
        solicitante: Seq<char>,
        marca_de_tiempo: u64,
    ) -> Result<TandaDappV, Error> {
        let i = self.indice_de(clave);
        if i < 0 {
            Err(Error::TandaInexistente)
        } else {
            let t = self.tandas[i];
            if t.creador != solicitante {
                Err(Error::SinAutorizacion)
            } else if t.activa {
                Err(Error::YaActiva)
            } else if t.integrantes.len() < t.num_integrantes {
                Err(Error::FaltanIntegrantes)
            } else {
                match texto_de_instante(inicio_del_dia(marca_de_tiempo)) {
                    None => Err(Error::FechaFueraDeRango),
                    Some(hoy) => if t.fecha_inicio == hoy {
                        Ok(TandaDappV { tandas: self.tandas.update(i, t.activada()), ..self })
                    } else {
                        match fecha_mas_dias(hoy, dias_hasta_el_final(t.num_integrantes, t.periodo)) {
                            Err(e) => Err(e),
                            Ok(fin) => match self.periodos_tanda[i] {
                                None => Err(Error::PeriodosNoInicializados),
                                Some(ps) => match periodos_regenerados(ps, hoy, t.periodo) {
                                    Err(e) => Err(e),
                                    Ok(qs) => Ok(
                                        TandaDappV {
                                            tandas: self.tandas.update(
                                                i,
                                                t.con_fechas(hoy, fin).activada(),
                                            ),
                                            periodos_tanda: self.periodos_tanda.update(i, Some(qs)),
                                            ..self
                                        },
                                    ),
                                },
                            },
                        }
                    },
                }
            }
        }
    }

    /// What computing the dates of the cycles of a group anew does to the ledger.
    ///
    /// The group must exist (`TandaInexistente`), only its creator may ask
    /// (`SinAutorizacion`), and it must have its cycles
    /// (`PeriodosNoInicializados`). Each cycle gets the dates that follow from
    /// the first day of the group and keeps everything else.
    pub open spec fn regeneracion(self, clave: Seq<char>, solicitante: Seq<char>) -> Result<
        TandaDappV,
        Error,
    > {
        let i = self.indice_de(clave);
        if i < 0 {
            Err(Error::TandaInexistente)
        } else if self.tandas[i].creador != solicitante {
            Err(Error::SinAutorizacion)
        } else {
            match self.periodos_tanda[i] {
                None => Err(Error::PeriodosNoInicializados),
                Some(ps) => match periodos_regenerados(
                    ps,
                    self.tandas[i].fecha_inicio,
                    self.tandas[i].periodo,
                ) {
                    Err(e) => Err(e),
                    Ok(qs) => Ok(
                        TandaDappV {
                            periodos_tanda: self.periodos_tanda.update(i, Some(qs)),
                            ..self
                        },
                    ),
                },
            }
        }
    }

    /// What editing a group does to the ledger.
    ///
    /// The group must exist (`TandaInexistente`) and only its creator may ask
    /// (`SinAutorizacion`). The group is edited as [`TandaV::editada`] says;
    /// where its defining data was open to change, its cycles, if it has any,
    /// are made anew for its places, its first day and its cycle length.
    pub open spec fn edicion(
        self,
        clave: Seq<char>,
        solicitante: Seq<char>,
        nombre: Option<Seq<char>>,
        num_integrantes: Option<u32>,
        monto: Option<u32>,
        periodo: Option<u32>,
        fecha_inicio: Option<Seq<char>>,
    ) -> Result<TandaDappV, Error> {
        let i = self.indice_de(clave);
        if i < 0 {
            Err(Error::TandaInexistente)
        } else if self.tandas[i].creador != solicitante {
            Err(Error::SinAutorizacion)
        } else {
            match self.tandas[i].editada(nombre, num_integrantes, monto, periodo, fecha_inicio) {
                Err(e) => Err(e),
                Ok(w) => if !w.editable() {
                    Ok(TandaDappV { tandas: self.tandas.update(i, w), ..self })
                } else {
                    match self.periodos_tanda[i] {
                        None => Ok(TandaDappV { tandas: self.tandas.update(i, w), ..self }),
                        Some(_) => match periodos_nuevos(
                            w.fecha_inicio,
                            w.periodo,
                            w.num_integrantes as nat,
                        ) {
                            Err(e) => Err(e),
                            Ok(qs) => Ok(
                                TandaDappV {
                                    tandas: self.tandas.update(i, w),
                                    periodos_tanda: self.periodos_tanda.update(i, Some(qs)),
                                    ..self
                                },
                            ),
                        },
                    }
                },
            }
        }
    }

    /// What cancelling a group does to the ledger.
    ///
    /// The group must exist (`TandaInexistente`), only its creator may ask
    /// (`SinAutorizacion`), and nobody may have contributed to it yet
    /// (`EnProgreso`). The group no longer runs and is marked as cancelled.
    pub open spec fn cancelacion(self, clave: Seq<char>, solicitante: Seq<char>) -> Result<
        TandaDappV,
        Error,
    > {
        let i = self.indice_de(clave);
        if i < 0 {
            Err(Error::TandaInexistente)
        } else if self.tandas[i].creador != solicitante {
            Err(Error::SinAutorizacion)
        } else if self.pagos[i].len() > 0 {
            Err(Error::EnProgreso)
        } else {
            Ok(TandaDappV { tandas: self.tandas.update(i, self.tandas[i].cancelada()), ..self })
        }
    }
}

/// Changing one group, its cycles and its history for valid ones keeps the
/// ledger valid.
pub proof fn lema_cambio_de_grupo(antes: TandaDappV, despues: TandaDappV, i: int)
    requires
        antes.valido(),
        0 <= i < antes.tandas.len(),
        despues.tandas.len() == antes.tandas.len(),
        despues.periodos_tanda.len() == antes.periodos_tanda.len(),
        despues.pagos.len() == antes.pagos.len(),
        forall|j: int|
            0 <= j < antes.tandas.len() && j != i ==> despues.tandas[j] == antes.tandas[j]
                && despues.periodos_tanda[j] == antes.periodos_tanda[j] && despues.pagos[j]
                == antes.pagos[j],
        despues.grupo_valido(i),
        despues.usuarios == antes.usuarios,
    ensures
        despues.valido(),
{
    assert forall|j: int| 0 <= j < despues.tandas.len() implies #[trigger] despues.grupo_valido(
        j,
    ) by {
        if j != i {
            assert(antes.grupo_valido(j));
        }
    }
}

} // verus!
