use crowdfund::{Config, Error, Event, Origin, Pallet, Proyectos};

fn limites(minimo: u32, maximo: u32) -> Config {
    Config { largo_minimo_nombre_proyecto: minimo, largo_maximo_nombre_proyecto: maximo }
}

fn firmado(quien: u64) -> Origin<u64> {
    Origin::Signed(quien)
}

#[test]
fn registry_starts_empty() {
    let proyectos = Proyectos::new();
    assert!(!proyectos.contains_key(b"alpha"));
    assert_eq!(proyectos.get(b"alpha"), 0);
    assert!(!proyectos.contains_key(b""));
}

#[test]
fn registry_insert_then_get() {
    let mut proyectos = Proyectos::new();
    proyectos.insert(b"alpha".to_vec(), 7);
    proyectos.insert(b"beta".to_vec(), 9);
    assert!(proyectos.contains_key(b"alpha"));
    assert!(proyectos.contains_key(b"beta"));
    assert!(!proyectos.contains_key(b"gamma"));
    assert_eq!(proyectos.get(b"alpha"), 7);
    assert_eq!(proyectos.get(b"beta"), 9);
    assert_eq!(proyectos.get(b"gamma"), 0);
}

#[test]
fn registry_insert_replaces_amount() {
    let mut proyectos = Proyectos::new();
    proyectos.insert(b"alpha".to_vec(), 7);
    proyectos.insert(b"beta".to_vec(), 9);
    proyectos.insert(b"alpha".to_vec(), 100);
    assert_eq!(proyectos.get(b"alpha"), 100);
    assert_eq!(proyectos.get(b"beta"), 9);
}

#[test]
fn registry_tells_names_apart_by_their_bytes() {
    let mut proyectos = Proyectos::new();
    proyectos.insert(b"alpha".to_vec(), 1);
    assert!(!proyectos.contains_key(b"alph"));
    assert!(!proyectos.contains_key(b"alphb"));
    assert!(!proyectos.contains_key(b"alphaa"));
    assert!(!proyectos.contains_key(b"Alpha"));
    proyectos.insert(vec![0u8, 255u8], u128::MAX);
    assert_eq!(proyectos.get(&[0u8, 255u8]), u128::MAX);
    assert_eq!(proyectos.get(&[255u8, 0u8]), 0);
}

#[test]
fn new_ledger_reports_its_limits() {
    let pallet = Pallet::new(limites(3, 10));
    assert_eq!(pallet.largo_minimo_nombre_proyecto(), 3);
    assert_eq!(pallet.largo_maximo_nombre_proyecto(), 10);
    assert!(!pallet.existe(b"alpha"));
}

#[test]
fn balance_of_unregistered_name_is_zero() {
    let mut pallet = Pallet::new(limites(3, 10));
    assert_eq!(pallet.saldo_de(b"alpha"), 0);
    assert_eq!(pallet.saldo_de(b""), 0);
    assert_eq!(pallet.saldo_de(b"a name that is far too long"), 0);
    pallet.crear_proyecto(firmado(1), b"beta".to_vec()).unwrap();
    assert_eq!(pallet.saldo_de(b"alpha"), 0);
    assert!(!pallet.existe(b"alpha"));
}

#[test]
fn create_rejects_short_name() {
    let mut pallet = Pallet::new(limites(3, 10));
    assert_eq!(pallet.crear_proyecto(firmado(1), b"ab".to_vec()), Err(Error::NombreMuyCorto));
    assert_eq!(pallet.crear_proyecto(firmado(1), Vec::new()), Err(Error::NombreMuyCorto));
    assert!(!pallet.existe(b"ab"));
    assert!(!pallet.existe(b""));
}

#[test]
fn create_rejects_long_name() {
    let mut pallet = Pallet::new(limites(3, 10));
    assert_eq!(
        pallet.crear_proyecto(firmado(1), b"abcdefghijk".to_vec()),
        Err(Error::NombreMuyLargo)
    );
    assert!(!pallet.existe(b"abcdefghijk"));
}

#[test]
fn create_accepts_names_at_both_limits() {
    let mut pallet = Pallet::new(limites(3, 10));
    assert_eq!(
        pallet.crear_proyecto(firmado(1), b"abc".to_vec()),
        Ok(Event::ProyectoCreado { quien: 1, nombre: b"abc".to_vec() })
    );
    assert_eq!(
        pallet.crear_proyecto(firmado(2), b"abcdefghij".to_vec()),
        Ok(Event::ProyectoCreado { quien: 2, nombre: b"abcdefghij".to_vec() })
    );
    assert!(pallet.existe(b"abc"));
    assert!(pallet.existe(b"abcdefghij"));
}

#[test]
fn create_with_equal_limits_admits_one_length() {
    let mut pallet = Pallet::new(limites(4, 4));
    assert_eq!(pallet.crear_proyecto(firmado(1), b"abc".to_vec()), Err(Error::NombreMuyCorto));
    assert_eq!(pallet.crear_proyecto(firmado(1), b"abcde".to_vec()), Err(Error::NombreMuyLargo));
    assert!(pallet.crear_proyecto(firmado(1), b"abcd".to_vec()).is_ok());
}

#[test]
fn create_with_crossed_limits_admits_nothing() {
    let mut pallet = Pallet::new(limites(5, 2));
    assert_eq!(pallet.crear_proyecto(firmado(1), b"a".to_vec()), Err(Error::NombreMuyCorto));
    assert_eq!(pallet.crear_proyecto(firmado(1), b"ab".to_vec()), Err(Error::NombreMuyCorto));
    assert_eq!(pallet.crear_proyecto(firmado(1), b"abc".to_vec()), Err(Error::NombreMuyLargo));
    assert_eq!(pallet.crear_proyecto(firmado(1), b"abcdef".to_vec()), Err(Error::NombreMuyLargo));
}

#[test]
fn create_with_zero_minimum_admits_empty_name() {
    let mut pallet = Pallet::new(limites(0, 2));
    assert!(pallet.crear_proyecto(firmado(1), Vec::new()).is_ok());
    assert!(pallet.existe(b""));
    assert_eq!(pallet.saldo_de(b""), 0);
}

#[test]
fn create_needs_a_signature() {
    let mut pallet = Pallet::new(limites(3, 10));
    assert_eq!(
        pallet.crear_proyecto(Origin::<u64>::Unsigned, b"alpha".to_vec()),
        Err(Error::NoFirmado)
    );
    assert!(!pallet.existe(b"alpha"));
    assert_eq!(
        pallet.crear_proyecto(Origin::<u64>::Unsigned, b"ab".to_vec()),
        Err(Error::NoFirmado)
    );
}

#[test]
fn fresh_project_exists_with_zero_balance() {
    let mut pallet = Pallet::new(limites(3, 10));
    pallet.crear_proyecto(firmado(1), b"alpha".to_vec()).unwrap();
    assert!(pallet.existe(b"alpha"));
    assert_eq!(pallet.saldo_de(b"alpha"), 0);
}

#[test]
fn creating_again_starts_from_zero() {
    let mut pallet = Pallet::new(limites(3, 10));
    pallet.crear_proyecto(firmado(1), b"alpha".to_vec()).unwrap();
    pallet.crear_proyecto(firmado(1), b"beta".to_vec()).unwrap();
    let retiro = pallet.apoyar_proyecto(firmado(2), b"alpha".to_vec(), 40, 100).unwrap();
    pallet.confirmar_apoyo(retiro, true).unwrap();
    let retiro = pallet.apoyar_proyecto(firmado(2), b"beta".to_vec(), 5, 60).unwrap();
    pallet.confirmar_apoyo(retiro, true).unwrap();
    assert_eq!(pallet.saldo_de(b"alpha"), 40);
    assert_eq!(
        pallet.crear_proyecto(firmado(3), b"alpha".to_vec()),
        Ok(Event::ProyectoCreado { quien: 3, nombre: b"alpha".to_vec() })
    );
    assert!(pallet.existe(b"alpha"));
    assert_eq!(pallet.saldo_de(b"alpha"), 0);
    assert_eq!(pallet.saldo_de(b"beta"), 5);
}

#[test]
fn rejected_create_leaves_registry_alone() {
    let mut pallet = Pallet::new(limites(3, 10));
    pallet.crear_proyecto(firmado(1), b"alpha".to_vec()).unwrap();
    let retiro = pallet.apoyar_proyecto(firmado(2), b"alpha".to_vec(), 40, 100).unwrap();
    pallet.confirmar_apoyo(retiro, true).unwrap();
    assert!(pallet.crear_proyecto(firmado(1), b"al".to_vec()).is_err());
    assert!(pallet.crear_proyecto(Origin::<u64>::Unsigned, b"alpha".to_vec()).is_err());
    assert_eq!(pallet.saldo_de(b"alpha"), 40);
}

#[test]
fn origin_gives_its_signer() {
    assert_eq!(Origin::Signed(7u64).ensure_signed(), Ok(7));
    assert_eq!(Origin::<u64>::Unsigned.ensure_signed(), Err(Error::NoFirmado));
}
