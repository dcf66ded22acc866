use dbent::{Entity, EntityInt, Error, Int, Key, Keyed, Label};

#[derive(Default)]
struct Model {
    id: Key<Int>,
    label: String,
}

impl Keyed for Model {
    type KeyType = Int;

    fn key(&self) -> Result<&Key<Self::KeyType>, Error> {
        Ok(&self.id)
    }
}

impl Label for Model {
    type LabelType = String;

    fn label(&self) -> Result<&Self::LabelType, Error> {
        Ok(&self.label)
    }
}

#[derive(Clone)]
struct Model1 {
    id: Key<Int>,
    data: String,
}

impl Keyed for Model1 {
    type KeyType = Int;

    fn key(&self) -> Result<&Key<Self::KeyType>, Error> {
        Ok(&self.id)
    }
}

struct Model2 {
    id: Key<Int>,
    data: String,
    model1: EntityInt<Model1>,
}

impl Keyed for Model2 {
    type KeyType = Int;

    fn key(&self) -> Result<&Key<Self::KeyType>, Error> {
        Ok(&self.id)
    }
}

#[test]
fn test_entity_key() -> Result<(), Error> {
    let entity = Model { id: Key::new(1), label: "Entity".to_owned() };
    assert_eq!(entity.key()?.unwrap(), 1);
    assert_eq!(entity.key()?.0, Some(1));

    let entity: Entity<Int, Model> = Key::new(1).into_entity();
    assert_eq!(entity.key()?.unwrap(), 1);
    assert_eq!(entity.key()?.0, Some(1));
    Ok(())
}

#[test]
fn test_entity_key_none() -> Result<(), Error> {
    let entity = Model::default();
    assert!(entity.key()?.is_none());
    Ok(())
}

#[test]
fn test_entity_data() -> Result<(), Error> {
    let entity: EntityInt<Model> =
        Model { id: Key::new(1), label: "Entity".to_owned() }.into();
    let result = entity.data()?;
    assert_eq!(entity.key()?.unwrap(), 1);
    assert_eq!(result.key()?.unwrap(), 1);
    assert_eq!(result.label()?, "Entity");
    Ok(())
}

#[test]
fn test_entity_data_none() {
    let entity = Entity::<Int, Model>::Empty;
    assert!(entity.data().is_err());
}

#[test]
fn test_key_on_entity() -> Result<(), Error> {
    let model1 = Model1 { id: Key::new(1), data: "Data".to_owned() };
    let mut model2 =
        Model2 { id: Key::new(1), data: "Data".to_owned(), model1: model1.clone().into() };
    assert_eq!(model1.key()?, model2.model1.key()?);

    model2.model1 = Key::new(2).into_entity();
    assert_eq!(model2.model1.key()?, &Key::new(2));

    model2.model1 = Entity::Empty;
    assert!(model2.model1.key().is_err());

    Ok(())
}

#[test]
fn test_entity_from_raw_is_data() {
    let entity: EntityInt<Model> =
        Model { id: Key::new(7), label: "Entity".to_owned() }.into();
    assert!(entity.is_data());
    assert!(!entity.is_key());
    assert!(!entity.is_none());
}

#[test]
fn test_entity_state_errors() {
    let mut empty = Entity::<Int, Model>::Empty;
    assert!(matches!(empty.data(), Err(Error::EntityEmpty)));
    assert!(matches!(empty.data_mut(), Err(Error::EntityEmpty)));
    assert!(matches!(empty.key(), Err(Error::EntityEmpty)));

    let mut by_key: Entity<Int, Model> = Key::new(1).into_entity();
    assert!(matches!(by_key.data(), Err(Error::EntityNotFetched)));
    assert!(matches!(by_key.data_mut(), Err(Error::EntityNotFetched)));
    assert!(by_key.key().is_ok());
}

#[test]
fn test_entity_data_mut_round_trip() -> Result<(), Error> {
    let mut entity: EntityInt<Model> =
        Model { id: Key::new(1), label: "Entity".to_owned() }.into();
    entity.data_mut()?.label = "Renamed".to_owned();
    assert_eq!(entity.data()?.label, "Renamed");
    Ok(())
}

#[test]
fn test_entity_default_is_empty() {
    let entity = Entity::<Int, Model>::default();
    assert!(entity.is_none());
}

#[test]
fn test_to_entity_keeps_key() {
    let id = Key::new(9);
    let entity: Entity<Int, Model> = id.to_entity();
    assert!(entity.is_key());
    assert_eq!(entity.key().unwrap(), &Key::new(9));
    // the source Key is still usable after the conversion
    assert_eq!(id.0, Some(9));
}
