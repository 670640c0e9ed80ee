//! The records that the ledger keeps: groups, cycles, members and payments,
//! each with its mathematical view.

use crate::date_handling::agregar_dias;
use crate::date_handling::calcular_inicio;
use crate::date_handling::fecha_mas_dias;
use crate::date_handling::fecha_tras_dias;
use crate::date_handling::inicio_del_dia;
use crate::date_handling::instante_de;
use crate::date_handling::texto_de_instante;
use crate::error::Error;
use crate::texto::contiene;
use crate::texto::copiar_cadenas;
use crate::texto::sin_repetidos;
use crate::texto::todos_en;
use crate::texto::vistas;
use vstd::prelude::*;
use vstd::string::StringExecFns;

verus! {

/// The text of a string that may be missing.
pub open spec fn vista_de_texto(o: Option<String>) -> Option<Seq<char>> {
    match o {
        Some(s) => Some(s@),
        None => None,
    }
}

/// The status of a group that waits for its members.
pub open spec fn estado_pendiente() -> Seq<char> {
    "Pendiente"@
}

/// The status of a group whose cycles run.
pub open spec fn estado_activa() -> Seq<char> {
    "Activa"@
}

/// The status of a group that was called off.
pub open spec fn estado_cancelada() -> Seq<char> {
    "Cancelada"@
}

/// A savings group.
#[derive(Debug, PartialEq, Eq)]
pub struct Tanda {
    pub id: String,
    pub creador: String,
    pub nombre_tanda: String,
    pub num_integrantes: u32,
    pub monto: u32,
    pub fecha_inicio: String,
    pub fecha_final: String,
    pub activa: bool,
    pub periodo: u32,
    pub estado: String,
    pub integrantes: Vec<String>,
}

/// What a [`Tanda`] holds, as mathematics.
pub struct TandaV {
    pub id: Seq<char>,
    pub creador: Seq<char>,
    pub nombre_tanda: Seq<char>,
    pub num_integrantes: u32,
    pub monto: u32,
    pub fecha_inicio: Seq<char>,
    pub fecha_final: Seq<char>,
    pub activa: bool,
    pub periodo: u32,
    pub estado: Seq<char>,
    pub integrantes: Seq<Seq<char>>,
}

impl View for Tanda {
    type V = TandaV;

    open spec fn view(&self) -> TandaV {
        TandaV {
            id: self.id@,
            creador: self.creador@,
            nombre_tanda: self.nombre_tanda@,
            num_integrantes: self.num_integrantes,
            monto: self.monto,
            fecha_inicio: self.fecha_inicio@,
            fecha_final: self.fecha_final@,
            activa: self.activa,
            periodo: self.periodo,
            estado: self.estado@,
            integrantes: vistas(self.integrantes@),
        }
    }
}

/// The first rule that the defining data of a new group breaks, if any:
/// the name is not empty, at least two places, a positive amount, a positive
/// number of days per cycle.
pub open spec fn primer_defecto(
    nombre: Seq<char>,
    num_integrantes: u32,
    monto: u32,
    periodo: u32,
) -> Option<Error> {
    if nombre.len() == 0 {
        Some(Error::NombreVacio)
    } else if num_integrantes < 2 {
        Some(Error::IntegrantesInsuficientes)
    } else if monto == 0 {
        Some(Error::MontoInvalido)
    } else if periodo == 0 {
        Some(Error::PeriodoInvalido)
    } else {
        None
    }
}

/// The number of days from the first day of a group to its last.
pub open spec fn dias_hasta_el_final(num_integrantes: u32, periodo: u32) -> int {
    num_integrantes as int * periodo as int - 1
}

impl TandaV {
    /// The group that [`Tanda::new`] makes out of its arguments and two dates.
    pub open spec fn nueva(
        id: Seq<char>,
        creador: Seq<char>,
        nombre: Seq<char>,
        num_integrantes: u32,
        monto: u32,
        periodo: u32,
        fecha_inicio: Seq<char>,
        fecha_final: Seq<char>,
    ) -> TandaV {
        TandaV {
            id,
            creador,
            nombre_tanda: nombre,
            num_integrantes,
            monto,
            fecha_inicio,
            fecha_final,
            activa: false,
            periodo,
            estado: estado_pendiente(),
            integrantes: Seq::empty(),
        }
    }

    /// The group without any data.
    pub open spec fn vacia() -> TandaV {
        TandaV {
            id: Seq::empty(),
            creador: Seq::empty(),
            nombre_tanda: Seq::empty(),
            num_integrantes: 0,
            monto: 0,
            fecha_inicio: Seq::empty(),
            fecha_final: Seq::empty(),
            activa: false,
            periodo: 0,
            estado: Seq::empty(),
            integrantes: Seq::empty(),
        }
    }

    /// Whether `cuenta` belongs to the group.
    pub open spec fn es_integrante(self, cuenta: Seq<char>) -> bool {
        self.integrantes.contains(cuenta)
    }

    /// Whether every place of the group is taken.
    pub open spec fn llena(self) -> bool {
        self.integrantes.len() >= self.num_integrantes
    }

    /// The status says what `activa` says.
    pub open spec fn estado_coherente(self) -> bool {
        if self.activa {
            self.estado == estado_activa()
        } else {
            self.estado == estado_pendiente() || self.estado == estado_cancelada()
        }
    }

    /// The last day is the first day plus all cycles, less one day.
    pub open spec fn fechas_coherentes(self) -> bool {
        fecha_mas_dias(self.fecha_inicio, dias_hasta_el_final(self.num_integrantes, self.periodo))
            == Ok::<Seq<char>, Error>(self.fecha_final)
    }

    /// What holds of every group that the ledger keeps.
    pub open spec fn valida(self) -> bool {
        &&& self.num_integrantes >= 2
        &&& self.monto > 0
        &&& self.periodo > 0
        &&& self.integrantes.no_duplicates()
        &&& self.integrantes.len() <= self.num_integrantes
        &&& self.estado_coherente()
        &&& self.fechas_coherentes()
    }

    /// The group once it runs.
    pub open spec fn activada(self) -> TandaV {
        TandaV { activa: true, estado: estado_activa(), ..self }
    }

    /// The group once it was called off.
    pub open spec fn cancelada(self) -> TandaV {
        TandaV { activa: false, estado: estado_cancelada(), ..self }
    }

    /// The group on other dates.
    pub open spec fn con_fechas(self, fecha_inicio: Seq<char>, fecha_final: Seq<char>) -> TandaV {
        TandaV { fecha_inicio, fecha_final, ..self }
    }

    /// The group under the name that an edit gives, if it gives one: an
    /// empty name changes nothing.
    pub open spec fn con_nombre(self, nombre: Option<Seq<char>>) -> TandaV {
        match nombre {
            Some(n) => if n.len() > 0 {
                TandaV { nombre_tanda: n, ..self }
            } else {
                self
            },
            None => self,
        }
    }

    /// The group with the defining data that an edit gives: a number that is
    /// missing or zero, and a date that is missing or empty, change nothing.
    pub open spec fn con_datos(
        self,
        num_integrantes: Option<u32>,
        monto: Option<u32>,
        periodo: Option<u32>,
        fecha_inicio: Option<Seq<char>>,
    ) -> TandaV {
        TandaV {
            num_integrantes: match num_integrantes {
                Some(n) => if n != 0 {
                    n
                } else {
                    self.num_integrantes
                },
                None => self.num_integrantes,
            },
            monto: match monto {
                Some(m) => if m != 0 {
                    m
                } else {
                    self.monto
                },
                None => self.monto,
            },
            periodo: match periodo {
                Some(p) => if p != 0 {
                    p
                } else {
                    self.periodo
                },
                None => self.periodo,
            },
            fecha_inicio: match fecha_inicio {
                Some(f) => if f.len() > 0 {
                    f
                } else {
                    self.fecha_inicio
                },
                None => self.fecha_inicio,
            },
            ..self
        }
    }

    /// The first rule that the defining data of an edited group breaks, if
    /// any: more than two places, a positive amount, and cycles of 7, 15 or
    /// 30 days.
    pub open spec fn defecto_de_edicion(self) -> Option<Error> {
        if self.num_integrantes <= 2 {
            Some(Error::IntegrantesInsuficientes)
        } else if self.monto == 0 {
            Some(Error::MontoInvalido)
        } else if !(self.periodo == 7 || self.periodo == 15 || self.periodo == 30) {
            Some(Error::PeriodoInvalido)
        } else {
            None
        }
    }

    /// Whether the defining data of the group can still be edited: it does
    /// not run and nobody has joined it.
    pub open spec fn editable(self) -> bool {
        !self.activa && self.integrantes.len() == 0
    }

    /// The group after an edit.
    ///
    /// A name that is given and not empty is taken. The defining data is
    /// taken only while the group does not run and nobody has joined it; else
    /// it is passed over in silence. Where it is taken, the group must then
    /// have more than two places (`IntegrantesInsuficientes`), a positive
    /// amount (`MontoInvalido`) and cycles of 7, 15 or 30 days
    /// (`PeriodoInvalido`), and its last day is computed anew from its first.
    pub open spec fn editada(
        self,
        nombre: Option<Seq<char>>,
        num_integrantes: Option<u32>,
        monto: Option<u32>,
        periodo: Option<u32>,
        fecha_inicio: Option<Seq<char>>,
    ) -> Result<TandaV, Error> {
        let t = self.con_nombre(nombre);
        if !t.editable() {
            Ok(t)
        } else {
            let u = t.con_datos(num_integrantes, monto, periodo, fecha_inicio);
            match u.defecto_de_edicion() {
                Some(e) => Err(e),
                None => match fecha_mas_dias(
                    u.fecha_inicio,
                    dias_hasta_el_final(u.num_integrantes, u.periodo),
                ) {
                    Err(e) => Err(e),
                    Ok(fin) => Ok(u.con_fechas(u.fecha_inicio, fin)),
                },
            }
        }
    }

    /// The group after `cuenta` has asked for a place: it gets one if a place
    /// is free and it has none yet.
    pub open spec fn con_integrante(self, cuenta: Seq<char>) -> TandaV {
        if !self.llena() && !self.es_integrante(cuenta) {
            TandaV { integrantes: self.integrantes.push(cuenta), ..self }
        } else {
            self
        }
    }
}

/// The last day of a group that starts on `fecha_inicio`.
///
/// Fails with `FormatoFecha` when the first day cannot be read, and otherwise
/// with `FechaFueraDeRango` when the last day cannot be represented.
pub fn fecha_final_de(fecha_inicio: &str, num_integrantes: u32, periodo: u32) -> (resultado: Result<
    String,
    Error,
>)
    ensures
        match resultado {
            Ok(texto) => fecha_mas_dias(
                fecha_inicio@,
                dias_hasta_el_final(num_integrantes, periodo),
            ) == Ok::<Seq<char>, Error>(texto@),
            Err(e) => fecha_mas_dias(fecha_inicio@, dias_hasta_el_final(num_integrantes, periodo))
                == Err::<Seq<char>, Error>(e),
        },
{
    assert(num_integrantes as int * periodo as int <= 0xffff_ffff * 0xffff_ffff) by (nonlinear_arith)
        requires
            num_integrantes <= 0xffff_ffff,
            periodo <= 0xffff_ffff,
    ;
    let total: u64 = num_integrantes as u64 * periodo as u64;
    if total == 0 {
        agregar_dias(fecha_inicio, -1)
    } else {
        match instante_de(fecha_inicio) {
            Err(e) => Err(e),
            Ok(instante) => fecha_tras_dias(instante, total - 1),
        }
    }
}

impl Tanda {
    /// What [`Tanda::new`] answers.
    pub open spec fn spec_new(
        id: Seq<char>,
        creador: Seq<char>,
        nombre: Seq<char>,
        num_integrantes: u32,
        monto: u32,
        periodo: u32,
        marca_de_tiempo: u64,
    ) -> Result<TandaV, Error> {
        match primer_defecto(nombre, num_integrantes, monto, periodo) {
            Some(e) => Err(e),
            None => match texto_de_instante(inicio_del_dia(marca_de_tiempo)) {
                None => Err(Error::FechaFueraDeRango),
                Some(hoy) => match fecha_mas_dias(
                    hoy,
                    dias_hasta_el_final(num_integrantes, periodo),
                ) {
                    Err(e) => Err(e),
                    Ok(fin) => Ok(
                        TandaV::nueva(id, creador, nombre, num_integrantes, monto, periodo, hoy, fin),
                    ),
                },
            },
        }
    }

    /// A new group that waits for its members. It starts on the day of
    /// `marca_de_tiempo`, a clock reading in nanoseconds, and ends after one
    /// cycle of `periodo` days for each of its `num_integrantes` places.
    ///
    /// The data is checked in this order: the name is not empty, there are at
    /// least two places, the amount is positive, a cycle has at least one day.
    pub fn new(
        id: String,
        creador: String,
        nombre: String,
        num_integrantes: u32,
        monto: u32,
        periodo: u32,
        marca_de_tiempo: u64,
    ) -> (resultado: Result<Tanda, Error>)
        ensures
            match resultado {
                Ok(t) => Tanda::spec_new(
                    id@,
                    creador@,
                    nombre@,
                    num_integrantes,
                    monto,
                    periodo,
                    marca_de_tiempo,
                ) == Ok::<TandaV, Error>(t@),
                Err(e) => Tanda::spec_new(
                    id@,
                    creador@,
                    nombre@,
                    num_integrantes,
                    monto,
                    periodo,
                    marca_de_tiempo,
                ) == Err::<TandaV, Error>(e),
            },
            resultado matches Ok(t) ==> t@.valida(),
    {
        if nombre == String::new() {
            return Err(Error::NombreVacio);
        }
        assert(nombre@.len() != 0) by {
            if nombre@.len() == 0 {
                assert(nombre@ =~= Seq::<char>::empty());
            }
        }
        if num_integrantes < 2 {
            return Err(Error::IntegrantesInsuficientes);
        }
        if monto == 0 {
            return Err(Error::MontoInvalido);
        }
        if periodo == 0 {
            return Err(Error::PeriodoInvalido);
        }
        let fecha_inicio = match calcular_inicio(marca_de_tiempo) {
            Ok(f) => f,
            Err(e) => {
                return Err(e);
            },
        };
        let fecha_final = match fecha_final_de(fecha_inicio.as_str(), num_integrantes, periodo) {
            Ok(f) => f,
            Err(e) => {
                return Err(e);
            },
        };
        let t = Tanda {
            id,
            creador,
            nombre_tanda: nombre,
            num_integrantes,
            monto,
            fecha_inicio,
            fecha_final,
            activa: false,
            periodo,
            estado: String::from_str("Pendiente"),
            integrantes: Vec::new(),
        };
        assert(t@.integrantes =~= Seq::<Seq<char>>::empty());
        Ok(t)
    }

    /// Whether `cuenta` belongs to the group.
    pub fn es_integrante(&self, cuenta: &String) -> (esta: bool)
        ensures
            esta == self@.es_integrante(cuenta@),
    {
        contiene(&self.integrantes, cuenta)
    }

    /// Whether every place of the group is taken.
    pub fn llena(&self) -> (si: bool)
        ensures
            si == self@.llena(),
    {
        self.integrantes.len() >= self.num_integrantes as usize
    }

    /// Gives `integrante` a place in the group. Nothing changes when every
    /// place is taken or when the account already has one.
    pub fn agregar_integrante(&mut self, integrante: String)
        ensures
            final(self)@ == old(self)@.con_integrante(integrante@),
            old(self)@.valida() ==> final(self)@.valida(),
    {
        if !self.llena() && !self.es_integrante(&integrante) {
            self.integrantes.push(integrante);
            assert(vistas(self.integrantes@) =~= vistas(old(self).integrantes@).push(integrante@));
        }
    }

    /// The group after an edit, as [`TandaV::editada`] says.
    pub fn editada(
        &self,
        nombre: Option<String>,
        num_integrantes: Option<u32>,
        monto: Option<u32>,
        periodo: Option<u32>,
        fecha_inicio: Option<String>,
    ) -> (resultado: Result<Tanda, Error>)
        ensures
            match resultado {
                Ok(t) => self@.editada(
                    vista_de_texto(nombre),
                    num_integrantes,
                    monto,
                    periodo,
                    vista_de_texto(fecha_inicio),
                ) == Ok::<TandaV, Error>(t@),
                Err(e) => self@.editada(
                    vista_de_texto(nombre),
                    num_integrantes,
                    monto,
                    periodo,
                    vista_de_texto(fecha_inicio),
                ) == Err::<TandaV, Error>(e),
            },
            self@.valida() ==> (resultado matches Ok(t) ==> t@.valida()),
    {
        let mut nueva = self.copia();
        match nombre {
            Some(n) => {
                let vacio = n == String::new();
                proof {
                    if n@.len() == 0 {
                        assert(n@ =~= Seq::<char>::empty());
                    }
                }
                if !vacio {
                    nueva.nombre_tanda = n;
                }
            },
            None => {},
        }
        assert(nueva@ == self@.con_nombre(vista_de_texto(nombre)));
        let ghost t = nueva@;
        if nueva.activa || nueva.integrantes.len() > 0 {
            return Ok(nueva);
        }
        match num_integrantes {
            Some(n) => {
                if n != 0 {
                    nueva.num_integrantes = n;
                }
            },
            None => {},
        }
        match monto {
            Some(m) => {
                if m != 0 {
                    nueva.monto = m;
                }
            },
            None => {},
        }
        match periodo {
            Some(p) => {
                if p != 0 {
                    nueva.periodo = p;
                }
            },
            None => {},
        }
        match fecha_inicio {
            Some(f) => {
                let vacia = f == String::new();
                proof {
                    if f@.len() == 0 {
                        assert(f@ =~= Seq::<char>::empty());
                    }
                }
                if !vacia {
                    nueva.fecha_inicio = f;
                }
            },
            None => {},
        }
        assert(nueva@ == t.con_datos(num_integrantes, monto, periodo, vista_de_texto(fecha_inicio)));
        if nueva.num_integrantes <= 2 {
            return Err(Error::IntegrantesInsuficientes);
        }
        if nueva.monto == 0 {
            return Err(Error::MontoInvalido);
        }
        if !(nueva.periodo == 7 || nueva.periodo == 15 || nueva.periodo == 30) {
            return Err(Error::PeriodoInvalido);
        }
        let fin = match fecha_final_de(
            nueva.fecha_inicio.as_str(),
            nueva.num_integrantes,
            nueva.periodo,
        ) {
            Ok(f) => f,
            Err(e) => {
                return Err(e);
            },
        };
        nueva.fecha_final = fin;
        Ok(nueva)
    }

    /// Whether the status says what `activa` says.
    pub fn estado_coherente(&self) -> (si: bool)
        ensures
            si == self@.estado_coherente(),
    {
        if self.activa {
            self.estado == String::from_str("Activa")
        } else {
            self.estado == String::from_str("Pendiente") || self.estado == String::from_str(
                "Cancelada",
            )
        }
    }

    /// Whether the last day is the first day plus all cycles, less one day.
    pub fn fechas_coherentes(&self) -> (si: bool)
        ensures
            si == self@.fechas_coherentes(),
    {
        match fecha_final_de(self.fecha_inicio.as_str(), self.num_integrantes, self.periodo) {
            Ok(f) => f == self.fecha_final,
            Err(_) => false,
        }
    }

    /// Whether the group is one that the ledger can keep.
    pub fn es_valida(&self) -> (si: bool)
        ensures
            si == self@.valida(),
    {
        self.num_integrantes >= 2 && self.monto > 0 && self.periodo > 0 && sin_repetidos(
            &self.integrantes,
        ) && self.integrantes.len() <= self.num_integrantes as usize && self.estado_coherente()
            && self.fechas_coherentes()
    }

    /// A copy of the group.
    pub fn copia(&self) -> (otra: Tanda)
        ensures
            otra@ == self@,
    {
        Tanda {
            id: self.id.clone(),
            creador: self.creador.clone(),
            nombre_tanda: self.nombre_tanda.clone(),
            num_integrantes: self.num_integrantes,
            monto: self.monto,
            fecha_inicio: self.fecha_inicio.clone(),
            fecha_final: self.fecha_final.clone(),
            activa: self.activa,
            periodo: self.periodo,
            estado: self.estado.clone(),
            integrantes: copiar_cadenas(&self.integrantes),
        }
    }
}

/// One contribution round of a group.
#[derive(Debug, PartialEq, Eq)]
pub struct Periodo {
    pub inicio: String,
    pub fin: String,
    /// The member who receives what this cycle collects; empty until claimed.
    pub usuario_en_turno: String,
    pub pagos_completos: bool,
    pub tanda_pagada: bool,
    pub cantidad_recaudada: u64,
    pub integrantes_pagados: Vec<String>,
}

/// What a [`Periodo`] holds, as mathematics.
pub struct PeriodoV {
    pub inicio: Seq<char>,
    pub fin: Seq<char>,
    pub usuario_en_turno: Seq<char>,
    pub pagos_completos: bool,
    pub tanda_pagada: bool,
    pub cantidad_recaudada: u64,
    pub integrantes_pagados: Seq<Seq<char>>,
}

impl View for Periodo {
    type V = PeriodoV;

    open spec fn view(&self) -> PeriodoV {
        PeriodoV {
            inicio: self.inicio@,
            fin: self.fin@,
            usuario_en_turno: self.usuario_en_turno@,
            pagos_completos: self.pagos_completos,
            tanda_pagada: self.tanda_pagada,
            cantidad_recaudada: self.cantidad_recaudada,
            integrantes_pagados: vistas(self.integrantes_pagados@),
        }
    }
}

impl PeriodoV {
    /// The cycle between two dates to which nobody has contributed yet.
    pub open spec fn nuevo(inicio: Seq<char>, fin: Seq<char>) -> PeriodoV {
        PeriodoV {
            inicio,
            fin,
            usuario_en_turno: Seq::empty(),
            pagos_completos: false,
            tanda_pagada: false,
            cantidad_recaudada: 0,
            integrantes_pagados: Seq::empty(),
        }
    }

    /// The same cycle between other dates.
    pub open spec fn con_fechas(self, inicio: Seq<char>, fin: Seq<char>) -> PeriodoV {
        PeriodoV { inicio, fin, ..self }
    }

    /// Whether somebody has claimed the turn of this cycle.
    pub open spec fn tiene_turno(self) -> bool {
        self.usuario_en_turno.len() > 0
    }

    /// Whether `cuenta` has contributed to this cycle.
    pub open spec fn ha_pagado(self, cuenta: Seq<char>) -> bool {
        self.integrantes_pagados.contains(cuenta)
    }

    /// Whether this cycle has everything that the group `t` asks of it: the
    /// full amount, from as many accounts as the group has places.
    pub open spec fn recaudacion_completa(self, t: TandaV) -> bool {
        self.cantidad_recaudada as int == t.monto as int * t.num_integrantes as int
            && self.integrantes_pagados.len() == t.num_integrantes
    }

    /// The cycle after `cuenta` has contributed the amount of the group `t` to
    /// it: one more account, the amount added, and the cycle marked complete
    /// exactly if it now has everything.
    pub open spec fn con_pago(self, cuenta: Seq<char>, t: TandaV) -> PeriodoV {
        let pagado = PeriodoV {
            cantidad_recaudada: (self.cantidad_recaudada + t.monto) as u64,
            integrantes_pagados: self.integrantes_pagados.push(cuenta),
            ..self
        };
        PeriodoV { pagos_completos: pagado.recaudacion_completa(t), ..pagado }
    }

    /// The cycle after `cuenta` has claimed its turn.
    pub open spec fn con_turno(self, cuenta: Seq<char>) -> PeriodoV {
        PeriodoV { usuario_en_turno: cuenta, ..self }
    }

    /// The cycle after it was paid out.
    pub open spec fn liquidado(self) -> PeriodoV {
        PeriodoV { tanda_pagada: true, ..self }
    }

    /// What holds of every cycle of the group `t` that the ledger keeps.
    pub open spec fn valido(self, t: TandaV) -> bool {
        &&& self.integrantes_pagados.no_duplicates()
        &&& forall|c: Seq<char>| #[trigger]
            self.integrantes_pagados.contains(c) ==> t.integrantes.contains(c)
        &&& self.cantidad_recaudada as int == t.monto as int * self.integrantes_pagados.len()
        &&& self.pagos_completos <==> self.recaudacion_completa(t)
        &&& self.tanda_pagada ==> self.pagos_completos && self.tiene_turno()
        &&& self.tiene_turno() ==> t.integrantes.contains(self.usuario_en_turno)
    }
}

impl Periodo {
    /// The cycle between two dates to which nobody has contributed yet.
    pub fn new(inicio: String, fin: String) -> (p: Periodo)
        ensures
            p@ == PeriodoV::nuevo(inicio@, fin@),
    {
        let p = Periodo {
            inicio,
            fin,
            usuario_en_turno: String::new(),
            pagos_completos: false,
            tanda_pagada: false,
            cantidad_recaudada: 0,
            integrantes_pagados: Vec::new(),
        };
        assert(p@.integrantes_pagados =~= Seq::<Seq<char>>::empty());
        p
    }

    /// Whether somebody has claimed the turn of this cycle.
    pub fn tiene_turno(&self) -> (si: bool)
        ensures
            si == self@.tiene_turno(),
    {
        let vacio = self.usuario_en_turno == String::new();
        proof {
            if self.usuario_en_turno@.len() == 0 {
                assert(self.usuario_en_turno@ =~= Seq::<char>::empty());
            }
        }
        !vacio
    }

    /// Whether `cuenta` has contributed to this cycle.
    pub fn ha_pagado(&self, cuenta: &String) -> (si: bool)
        ensures
            si == self@.ha_pagado(cuenta@),
    {
        contiene(&self.integrantes_pagados, cuenta)
    }

    /// Whether the cycle is one that the ledger can keep for the group `tanda`.
    pub fn es_valido(&self, tanda: &Tanda) -> (si: bool)
        ensures
            si == self@.valido(tanda@),
    {
        let pagados = self.integrantes_pagados.len();
        assert(tanda.monto as int * pagados as int <= 0xffff_ffff * 0xffff_ffff_ffff_ffff)
            by (nonlinear_arith)
            requires
                0 <= tanda.monto <= 0xffff_ffff,
                0 <= pagados <= 0xffff_ffff_ffff_ffff,
        ;
        assert(tanda.monto as int * tanda.num_integrantes as int <= 0xffff_ffff * 0xffff_ffff)
            by (nonlinear_arith)
            requires
                0 <= tanda.monto <= 0xffff_ffff,
                0 <= tanda.num_integrantes <= 0xffff_ffff,
        ;
        let esperado: u128 = tanda.monto as u128 * pagados as u128;
        let total: u128 = tanda.monto as u128 * tanda.num_integrantes as u128;
        let completa = self.cantidad_recaudada as u128 == total && pagados
            == tanda.num_integrantes as usize;
        let turno = self.tiene_turno();
        sin_repetidos(&self.integrantes_pagados) && todos_en(
            &self.integrantes_pagados,
            &tanda.integrantes,
        ) && self.cantidad_recaudada as u128 == esperado && self.pagos_completos == completa && (
        !self.tanda_pagada || (self.pagos_completos && turno)) && (!turno || contiene(
            &tanda.integrantes,
            &self.usuario_en_turno,
        ))
    }

    /// A copy of the cycle.
    pub fn copia(&self) -> (otro: Periodo)
        ensures
            otro@ == self@,
    {
        Periodo {
            inicio: self.inicio.clone(),
            fin: self.fin.clone(),
            usuario_en_turno: self.usuario_en_turno.clone(),
            pagos_completos: self.pagos_completos,
            tanda_pagada: self.tanda_pagada,
            cantidad_recaudada: self.cantidad_recaudada,
            integrantes_pagados: copiar_cadenas(&self.integrantes_pagados),
        }
    }
}

impl Default for Periodo {
    /// The cycle without dates to which nobody has contributed.
    fn default() -> (p: Periodo)
        ensures
            p@ == PeriodoV::nuevo(Seq::empty(), Seq::empty()),
    {
        Periodo::new(String::new(), String::new())
    }
}

/// A payment that is due: the whole of what a cycle collected, in NEAR, to the
/// member whose turn it is.
#[derive(Debug, PartialEq, Eq)]
pub struct Transferencia {
    pub destinatario: String,
    pub monto: u64,
}

/// What a [`Transferencia`] holds, as mathematics.
pub struct TransferenciaV {
    pub destinatario: Seq<char>,
    pub monto: u64,
}

impl View for Transferencia {
    type V = TransferenciaV;

    open spec fn view(&self) -> TransferenciaV {
        TransferenciaV { destinatario: self.destinatario@, monto: self.monto }
    }
}

/// What the ledger knows of one account: the groups it created and the groups
/// it joined, each in the order in which that happened.
#[derive(Debug, PartialEq, Eq)]
pub struct Usuario {
    pub cuenta: String,
    pub tandas_creadas: Vec<String>,
    pub tandas_inscritas: Vec<String>,
}

/// What a [`Usuario`] holds, as mathematics.
pub struct UsuarioV {
    pub cuenta: Seq<char>,
    pub tandas_creadas: Seq<Seq<char>>,
    pub tandas_inscritas: Seq<Seq<char>>,
}

impl View for Usuario {
    type V = UsuarioV;

    open spec fn view(&self) -> UsuarioV {
        UsuarioV {
            cuenta: self.cuenta@,
            tandas_creadas: vistas(self.tandas_creadas@),
            tandas_inscritas: vistas(self.tandas_inscritas@),
        }
    }
}

impl UsuarioV {
    /// The account that has neither created nor joined a group.
    pub open spec fn nuevo(cuenta: Seq<char>) -> UsuarioV {
        UsuarioV { cuenta, tandas_creadas: Seq::empty(), tandas_inscritas: Seq::empty() }
    }

    /// The account after one more group was noted for it, as created by it or
    /// as joined by it.
    pub open spec fn con_tanda(self, id_tanda: Seq<char>, creada: bool) -> UsuarioV {
        if creada {
            UsuarioV { tandas_creadas: self.tandas_creadas.push(id_tanda), ..self }
        } else {
            UsuarioV { tandas_inscritas: self.tandas_inscritas.push(id_tanda), ..self }
        }
    }
}

impl Usuario {
    /// The account that has neither created nor joined a group.
    pub fn new(cuenta: String) -> (u: Usuario)
        ensures
            u@ == UsuarioV::nuevo(cuenta@),
    {
        let u = Usuario { cuenta, tandas_creadas: Vec::new(), tandas_inscritas: Vec::new() };
        assert(u@.tandas_creadas =~= Seq::<Seq<char>>::empty());
        assert(u@.tandas_inscritas =~= Seq::<Seq<char>>::empty());
        u
    }

    /// Notes one more group for the account. The same group may be noted
    /// more than once.
    pub fn anotar_tanda(&mut self, id_tanda: String, creada: bool)
        ensures
            final(self)@ == old(self)@.con_tanda(id_tanda@, creada),
    {
        if creada {
            self.tandas_creadas.push(id_tanda);
            assert(vistas(self.tandas_creadas@) =~= vistas(old(self).tandas_creadas@).push(
                id_tanda@,
            ));
        } else {
            self.tandas_inscritas.push(id_tanda);
            assert(vistas(self.tandas_inscritas@) =~= vistas(old(self).tandas_inscritas@).push(
                id_tanda@,
            ));
        }
    }

    /// A copy of the account's record.
    pub fn copia(&self) -> (otro: Usuario)
        ensures
            otro@ == self@,
    {
        Usuario {
            cuenta: self.cuenta.clone(),
            tandas_creadas: copiar_cadenas(&self.tandas_creadas),
            tandas_inscritas: copiar_cadenas(&self.tandas_inscritas),
        }
    }
}

impl Default for Usuario {
    /// The record of the account without a name.
    fn default() -> (u: Usuario)
        ensures
            u@ == UsuarioV::nuevo(Seq::empty()),
    {
        Usuario::new(String::new())
    }
}

/// One contribution, as the history keeps it.
#[derive(Debug, PartialEq, Eq)]
pub struct Pago {
    pub monto: u32,
    pub fecha: String,
}

/// What a [`Pago`] holds, as mathematics.
pub struct PagoV {
    pub monto: u32,
    pub fecha: Seq<char>,
}

impl View for Pago {
    type V = PagoV;

    open spec fn view(&self) -> PagoV {
        PagoV { monto: self.monto, fecha: self.fecha@ }
    }
}

impl Pago {
    /// The record of a contribution of `monto` made on `fecha`.
    pub fn new(monto: u32, fecha: String) -> (p: Pago)
        ensures
            p@ == (PagoV { monto, fecha: fecha@ }),
    {
        Pago { monto, fecha }
    }

    /// A copy of the record.
    pub fn copia(&self) -> (otro: Pago)
        ensures
            otro@ == self@,
    {
        Pago { monto: self.monto, fecha: self.fecha.clone() }
    }
}

/// Everything that one account has contributed to one group, oldest first.
#[derive(Debug, PartialEq, Eq)]
pub struct HistorialCuenta {
    pub cuenta: String,
    pub pagos: Vec<Pago>,
}

/// What a [`HistorialCuenta`] holds, as mathematics.
pub struct HistorialCuentaV {
    pub cuenta: Seq<char>,
    pub pagos: Seq<PagoV>,
}

/// The views of a list of payments, in order.
pub open spec fn vistas_de_pagos(v: Seq<Pago>) -> Seq<PagoV> {
    v.map_values(|p: Pago| p@)
}

impl View for HistorialCuenta {
    type V = HistorialCuentaV;

    open spec fn view(&self) -> HistorialCuentaV {
        HistorialCuentaV { cuenta: self.cuenta@, pagos: vistas_de_pagos(self.pagos@) }
    }
}

/// A copy of a list of payments.
pub fn copiar_pagos(lista: &Vec<Pago>) -> (copia: Vec<Pago>)
    ensures
        vistas_de_pagos(copia@) == vistas_de_pagos(lista@),
{
    let mut copia: Vec<Pago> = Vec::new();
    let mut i: usize = 0;
    while i < lista.len()
        invariant
            i <= lista.len(),
            copia.len() == i,
            forall|j: int| 0 <= j < i ==> copia@[j]@ == lista@[j]@,
        decreases lista.len() - i,
    {
        copia.push(lista[i].copia());
        i += 1;
    }
    assert(vistas_de_pagos(copia@) =~= vistas_de_pagos(lista@));
    copia
}

impl HistorialCuenta {
    /// A copy of the history.
    pub fn copia(&self) -> (otro: HistorialCuenta)
        ensures
            otro@ == self@,
    {
        HistorialCuenta { cuenta: self.cuenta.clone(), pagos: copiar_pagos(&self.pagos) }
    }
}

/// The history of one group: what each account has contributed to it.
#[derive(Debug, PartialEq, Eq)]
pub struct HistorialTanda {
    pub clave: String,
    pub cuentas: Vec<HistorialCuenta>,
}

/// What a [`HistorialTanda`] holds, as mathematics.
pub struct HistorialTandaV {
    pub clave: Seq<char>,
    pub cuentas: Seq<HistorialCuentaV>,
}

/// The views of a list of histories, in order.
pub open spec fn vistas_de_historiales(v: Seq<HistorialCuenta>) -> Seq<HistorialCuentaV> {
    v.map_values(|h: HistorialCuenta| h@)
}

/// A copy of a list of histories.
pub fn copiar_historiales(lista: &Vec<HistorialCuenta>) -> (copia: Vec<HistorialCuenta>)
    ensures
        vistas_de_historiales(copia@) == vistas_de_historiales(lista@),
{
    let mut copia: Vec<HistorialCuenta> = Vec::new();
    let mut i: usize = 0;
    while i < lista.len()
        invariant
            i <= lista.len(),
            copia.len() == i,
            forall|j: int| 0 <= j < i ==> copia@[j]@ == lista@[j]@,
        decreases lista.len() - i,
    {
        copia.push(lista[i].copia());
        i += 1;
    }
    assert(vistas_de_historiales(copia@) =~= vistas_de_historiales(lista@));
    copia
}

impl View for HistorialTanda {
    type V = HistorialTandaV;

    open spec fn view(&self) -> HistorialTandaV {
        HistorialTandaV { clave: self.clave@, cuentas: vistas_de_historiales(self.cuentas@) }
    }
}

impl Default for Tanda {
    /// The group without any data. It is no valid group: it stands for
    /// "nothing here".
    fn default() -> (t: Tanda)
        ensures
            t@ == TandaV::vacia(),
    {
        let t = Tanda {
            id: String::new(),
            creador: String::new(),
            nombre_tanda: String::new(),
            num_integrantes: 0,
            monto: 0,
            fecha_inicio: String::new(),
            fecha_final: String::new(),
            activa: false,
            periodo: 0,
            estado: String::new(),
            integrantes: Vec::new(),
        };
        assert(t@.integrantes =~= Seq::<Seq<char>>::empty());
        t
    }
}

} // verus!
