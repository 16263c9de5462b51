//! What holds of the ledger over any run of calls, proved of its rules.

use vstd::prelude::*;
use crate::modelo::{
    abonar,
    acotado,
    crear,
    revisar_abono,
    revisar_apoyo,
    revisar_creacion,
    revisar_nombre,
    saldo_de,
    saldo_maximo,
    Registro,
};
use crate::tipos::{Config, Error, Origin};

verus! {

/// One call that may change the registry, as the registry sees it.
pub enum Paso {
    /// A signed call to register `nombre`.
    Crear { nombre: Seq<u8> },
    /// The close of a pledge of `cantidad` to `nombre` whose withdrawal was made.
    Abonar { nombre: Seq<u8>, cantidad: nat },
}

/// The registry after one call: changed where the call goes through, and as
/// it was where the call is turned down.
pub open spec fn dar_paso(config: Config, m: Registro, paso: Paso) -> Registro {
    match paso {
        Paso::Crear { nombre } => if revisar_nombre(config, nombre) is Ok {
            crear(m, nombre)
        } else {
            m
        },
        Paso::Abonar { nombre, cantidad } => if revisar_abono(m, nombre, cantidad, true) is Ok {
            abonar(m, nombre, cantidad)
        } else {
            m
        },
    }
}

/// The registry after a run of calls on a ledger that started empty.
pub open spec fn historia(config: Config, pasos: Seq<Paso>) -> Registro
    decreases pasos.len(),
{
    if pasos.len() == 0 {
        Registro::empty()
    } else {
        dar_paso(config, historia(config, pasos.drop_last()), pasos.last())
    }
}

/// No call of the run asks to register `nombre`.
pub open spec fn nunca_creado(pasos: Seq<Paso>, nombre: Seq<u8>) -> bool {
    forall|i: int| 0 <= i < pasos.len() ==> #[trigger] pasos[i] != (Paso::Crear { nombre })
}

/// The sum of the amounts.
pub open spec fn total(cantidades: Seq<nat>) -> nat
    decreases cantidades.len(),
{
    if cantidades.len() == 0 {
        0
    } else {
        total(cantidades.drop_last()) + cantidades.last()
    }
}

/// Each pledge of the run to `nombre`, taken in turn, is credited.
pub open spec fn todos_abonados(m: Registro, nombre: Seq<u8>, cantidades: Seq<nat>) -> bool
    decreases cantidades.len(),
{
    if cantidades.len() == 0 {
        true
    } else {
        &&& todos_abonados(m, nombre, cantidades.drop_last())
        &&& revisar_abono(
            abonar_todos(m, nombre, cantidades.drop_last()),
            nombre,
            cantidades.last(),
            true,
        ) is Ok
    }
}

/// The registry after the pledges of the run were credited to `nombre` in turn.
pub open spec fn abonar_todos(m: Registro, nombre: Seq<u8>, cantidades: Seq<nat>) -> Registro
    decreases cantidades.len(),
{
    if cantidades.len() == 0 {
        m
    } else {
        abonar(abonar_todos(m, nombre, cantidades.drop_last()), nombre, cantidades.last())
    }
}

/// The registry after a whole pledge: validated, withdrawn by the currency
/// where the validation asked for it, and closed. `retirado` says whether the
/// currency made the withdrawal that it was asked for.
pub open spec fn apoyar<A>(
    m: Registro,
    origen: Origin<A>,
    nombre: Seq<u8>,
    cantidad: nat,
    saldo_libre: nat,
    retirado: bool,
) -> Registro {
    if revisar_apoyo(m, origen, nombre, cantidad, saldo_libre) is Ok && revisar_abono(
        m,
        nombre,
        cantidad,
        retirado,
    ) is Ok {
        abonar(m, nombre, cantidad)
    } else {
        m
    }
}

/// What a whole pledge takes from its caller: the amount, where the
/// withdrawal was asked for and made, and nothing otherwise.
pub open spec fn tomado_del_firmante<A>(
    m: Registro,
    origen: Origin<A>,
    nombre: Seq<u8>,
    cantidad: nat,
    saldo_libre: nat,
    retirado: bool,
) -> nat {
    if revisar_apoyo(m, origen, nombre, cantidad, saldo_libre) is Ok && retirado {
        cantidad
    } else {
        0
    }
}

/// A call keeps every registered name within the limits.
pub proof fn ley_paso_acotado(config: Config, m: Registro, paso: Paso)
    requires
        acotado(config, m),
    ensures
        acotado(config, dar_paso(config, m, paso)),
{
}

/// After any run of calls, every registered name lies within the limits.
pub proof fn ley_nombres_acotados(config: Config, pasos: Seq<Paso>)
    ensures
        acotado(config, historia(config, pasos)),
    decreases pasos.len(),
{
    if pasos.len() > 0 {
        ley_nombres_acotados(config, pasos.drop_last());
        ley_paso_acotado(config, historia(config, pasos.drop_last()), pasos.last());
    }
}

/// A name that no call asked to register is not registered, and its balance
/// reads as zero.
pub proof fn ley_ausente_saldo_cero(config: Config, pasos: Seq<Paso>, nombre: Seq<u8>)
    requires
        nunca_creado(pasos, nombre),
    ensures
        !historia(config, pasos).contains_key(nombre),
        saldo_de(historia(config, pasos), nombre) == 0,
    decreases pasos.len(),
{
    if pasos.len() > 0 {
        let antes = pasos.drop_last();
        assert forall|i: int| 0 <= i < antes.len() implies #[trigger] antes[i] != (Paso::Crear {
            nombre,
        }) by {
            assert(antes[i] == pasos[i]);
        }
        ley_ausente_saldo_cero(config, antes, nombre);
        assert(pasos.last() == pasos[pasos.len() - 1]);
    }
}

/// Right after a name within the limits is registered, the project exists and
/// nothing is pledged to it.
pub proof fn ley_saldo_inicial(config: Config, m: Registro, nombre: Seq<u8>)
    requires
        revisar_nombre(config, nombre) is Ok,
    ensures
        dar_paso(config, m, Paso::Crear { nombre }).contains_key(nombre),
        saldo_de(dar_paso(config, m, Paso::Crear { nombre }), nombre) == 0,
{
}

/// A name is admitted exactly when its length lies within the limits. Above
/// the maximum it is too long; below the minimum, and not above the maximum,
/// it is too short.
pub proof fn ley_limites_del_nombre(config: Config, nombre: Seq<u8>)
    ensures
        revisar_nombre(config, nombre) is Ok <==> config.admite(nombre.len()),
        nombre.len() > config.largo_maximo_nombre_proyecto ==> revisar_nombre(config, nombre)
            == Err::<(), Error>(Error::NombreMuyLargo),
        nombre.len() <= config.largo_maximo_nombre_proyecto && nombre.len()
            < config.largo_minimo_nombre_proyecto ==> revisar_nombre(config, nombre) == Err::<
            (),
            Error,
        >(Error::NombreMuyCorto),
{
}

/// A signed call to register a name, and the close of a pledge whose
/// withdrawal was made, each change the registry as one step of a run does.
pub proof fn ley_llamadas_son_pasos<A>(
    config: Config,
    m: Registro,
    origen: Origin<A>,
    nombre: Seq<u8>,
    cantidad: nat,
)
    requires
        origen is Signed,
    ensures
        dar_paso(config, m, Paso::Crear { nombre }) == (if revisar_creacion(config, origen, nombre)
            is Ok {
            crear(m, nombre)
        } else {
            m
        }),
        dar_paso(config, m, Paso::Abonar { nombre, cantidad }) == (if revisar_abono(
            m,
            nombre,
            cantidad,
            true,
        ) is Ok {
            abonar(m, nombre, cantidad)
        } else {
            m
        }),
{
}

/// A signed pledge to a name that is not registered is turned down with
/// `ProyectoNoExiste`, whatever the amount and the caller's funds.
pub proof fn ley_apoyo_sin_proyecto<A>(
    m: Registro,
    origen: Origin<A>,
    nombre: Seq<u8>,
    cantidad: nat,
    saldo_libre: nat,
)
    requires
        origen is Signed,
        !m.contains_key(nombre),
    ensures
        revisar_apoyo(m, origen, nombre, cantidad, saldo_libre) == Err::<A, Error>(
            Error::ProyectoNoExiste,
        ),
{
}

/// A signed pledge to a registered project of more than the caller's free
/// balance is turned down with `FondosInsuficientes`.
pub proof fn ley_apoyo_sin_fondos<A>(
    m: Registro,
    origen: Origin<A>,
    nombre: Seq<u8>,
    cantidad: nat,
    saldo_libre: nat,
)
    requires
        origen is Signed,
        m.contains_key(nombre),
        saldo_libre < cantidad,
    ensures
        revisar_apoyo(m, origen, nombre, cantidad, saldo_libre) == Err::<A, Error>(
            Error::FondosInsuficientes,
        ),
{
}

/// A pledge that passed its validation is credited once its withdrawal is
/// made, on the registry that it was validated on.
pub proof fn ley_apoyo_validado_se_abona<A>(
    m: Registro,
    origen: Origin<A>,
    nombre: Seq<u8>,
    cantidad: nat,
    saldo_libre: nat,
)
    requires
        revisar_apoyo(m, origen, nombre, cantidad, saldo_libre) is Ok,
    ensures
        revisar_abono(m, nombre, cantidad, true) is Ok,
        saldo_de(abonar(m, nombre, cantidad), nombre) == saldo_de(m, nombre) + cantidad,
        cantidad <= saldo_libre,
{
}

/// A pledge whose withdrawal was not made is never credited.
pub proof fn ley_sin_retiro_no_hay_abono(m: Registro, nombre: Seq<u8>, cantidad: nat)
    ensures
        revisar_abono(m, nombre, cantidad, false) == Err::<(), Error>(Error::FondosInsuficientes),
{
}

/// A pledge is all or nothing: whatever its validation and its withdrawal
/// give, the project gains exactly what the caller is made to pay, which is
/// the whole amount or nothing, and it never costs the caller more than its
/// free balance.
pub proof fn ley_apoyo_atomico<A>(
    m: Registro,
    origen: Origin<A>,
    nombre: Seq<u8>,
    cantidad: nat,
    saldo_libre: nat,
    retirado: bool,
)
    ensures
        saldo_de(apoyar(m, origen, nombre, cantidad, saldo_libre, retirado), nombre) == saldo_de(
            m,
            nombre,
        ) + tomado_del_firmante(m, origen, nombre, cantidad, saldo_libre, retirado),
        tomado_del_firmante(m, origen, nombre, cantidad, saldo_libre, retirado) == cantidad
            || tomado_del_firmante(m, origen, nombre, cantidad, saldo_libre, retirado) == 0,
        tomado_del_firmante(m, origen, nombre, cantidad, saldo_libre, retirado) <= saldo_libre,
        tomado_del_firmante(m, origen, nombre, cantidad, saldo_libre, retirado) == 0 ==> apoyar(
            m,
            origen,
            nombre,
            cantidad,
            saldo_libre,
            retirado,
        ) == m,
{
}

/// Crediting a pledge changes the balance of its project alone, and registers
/// nothing.
pub proof fn ley_abono_local(m: Registro, nombre: Seq<u8>, cantidad: nat, otro: Seq<u8>)
    requires
        revisar_abono(m, nombre, cantidad, true) is Ok,
    ensures
        abonar(m, nombre, cantidad).dom() == m.dom(),
        otro != nombre ==> saldo_de(abonar(m, nombre, cantidad), otro) == saldo_de(m, otro),
{
    assert(abonar(m, nombre, cantidad).dom() =~= m.dom());
}

/// Over any run of credited pledges to one project, the project's balance
/// grows by exactly the sum of the amounts withdrawn for them, the project
/// stays registered, and no other balance moves.
pub proof fn ley_conservacion(m: Registro, nombre: Seq<u8>, cantidades: Seq<nat>, otro: Seq<u8>)
    requires
        m.contains_key(nombre),
        todos_abonados(m, nombre, cantidades),
    ensures
        abonar_todos(m, nombre, cantidades).contains_key(nombre),
        saldo_de(abonar_todos(m, nombre, cantidades), nombre) == saldo_de(m, nombre) + total(
            cantidades,
        ),
        cantidades.len() > 0 ==> saldo_de(m, nombre) + total(cantidades) <= saldo_maximo(),
        abonar_todos(m, nombre, cantidades).dom() == m.dom(),
        otro != nombre ==> saldo_de(abonar_todos(m, nombre, cantidades), otro) == saldo_de(
            m,
            otro,
        ),
    decreases cantidades.len(),
{
    if cantidades.len() > 0 {
        let antes = cantidades.drop_last();
        ley_conservacion(m, nombre, antes, otro);
        ley_abono_local(abonar_todos(m, nombre, antes), nombre, cantidades.last(), otro);
    }
}

/// The balance of a project is the sum of the pledges credited to it since it
/// was registered.
pub proof fn ley_saldo_es_la_suma(
    config: Config,
    m: Registro,
    nombre: Seq<u8>,
    cantidades: Seq<nat>,
)
    requires
        revisar_nombre(config, nombre) is Ok,
        todos_abonados(dar_paso(config, m, Paso::Crear { nombre }), nombre, cantidades),
    ensures
        saldo_de(
            abonar_todos(dar_paso(config, m, Paso::Crear { nombre }), nombre, cantidades),
            nombre,
        ) == total(cantidades),
{
    ley_saldo_inicial(config, m, nombre);
    ley_conservacion(dar_paso(config, m, Paso::Crear { nombre }), nombre, cantidades, nombre);
}

} // verus!
