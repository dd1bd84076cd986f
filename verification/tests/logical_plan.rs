use greptime_common::logical_plan::{
    create_aggregate_function, rename_projection, AggregateFunctionCreator, ConcreteDataType,
    QualifiedField, QueryError, TypeSignature, Volatility,
};
use std::cell::RefCell;

#[derive(Debug)]
struct DummyAccumulator;

#[derive(Debug)]
struct DummyAccumulatorCreator;

impl AggregateFunctionCreator for DummyAccumulatorCreator {
    fn input_types(&self) -> Result<Vec<ConcreteDataType>, QueryError> {
        Ok(vec![ConcreteDataType::float64_datatype()])
    }

    fn set_input_types(&self, _: Vec<ConcreteDataType>) -> Result<(), QueryError> {
        Ok(())
    }

    fn output_type(&self) -> Result<ConcreteDataType, QueryError> {
        Ok(self.input_types()?.into_iter().next().unwrap())
    }

    fn state_types(&self) -> Result<Vec<ConcreteDataType>, QueryError> {
        Ok(vec![ConcreteDataType::float64_datatype(), ConcreteDataType::uint32_datatype()])
    }

    type Accumulator = DummyAccumulator;

    fn create_accumulator(&self, _: Vec<ConcreteDataType>) -> Result<DummyAccumulator, QueryError> {
        Ok(DummyAccumulator)
    }
}

#[test]
fn test_create_udaf() {
    let creator = DummyAccumulatorCreator;
    let udaf = create_aggregate_function("dummy".to_string(), 1, creator);
    assert_eq!("dummy", udaf.name);

    let signature = udaf.signature;
    assert_eq!(TypeSignature::Any(1), signature.type_signature);
    assert_eq!(Volatility::Immutable, signature.volatility);

    assert_eq!(
        ConcreteDataType::float64_datatype(),
        udaf.return_type(&[ConcreteDataType::float64_datatype()]).unwrap()
    );
    assert_eq!(
        vec![ConcreteDataType::float64_datatype(), ConcreteDataType::uint32_datatype()],
        udaf.state_type(&ConcreteDataType::float64_datatype()).unwrap()
    );
}

struct RecordingCreator {
    seen: RefCell<Vec<ConcreteDataType>>,
}

impl AggregateFunctionCreator for RecordingCreator {
    fn input_types(&self) -> Result<Vec<ConcreteDataType>, QueryError> {
        Ok(self.seen.borrow().clone())
    }

    fn set_input_types(&self, input_types: Vec<ConcreteDataType>) -> Result<(), QueryError> {
        if input_types.is_empty() {
            return Err(QueryError { message: "no input".to_string() });
        }
        *self.seen.borrow_mut() = input_types;
        Ok(())
    }

    fn output_type(&self) -> Result<ConcreteDataType, QueryError> {
        Ok(self.seen.borrow()[0])
    }

    fn state_types(&self) -> Result<Vec<ConcreteDataType>, QueryError> {
        Err(QueryError { message: "no state".to_string() })
    }

    type Accumulator = Vec<ConcreteDataType>;

    fn create_accumulator(&self, input_types: Vec<ConcreteDataType>) -> Result<Vec<ConcreteDataType>, QueryError> {
        if input_types.is_empty() {
            return Err(QueryError { message: "no types recorded".to_string() });
        }
        Ok(input_types)
    }
}

#[test]
fn return_type_records_input_types_first() {
    let udaf = create_aggregate_function("rec".to_string(), 2, RecordingCreator { seen: RefCell::new(vec![]) });
    assert_eq!(udaf.signature.type_signature, TypeSignature::Any(2));
    assert_eq!(
        udaf.return_type(&[ConcreteDataType::Int64, ConcreteDataType::String]).unwrap(),
        ConcreteDataType::Int64
    );
    assert_eq!(*udaf.creator.seen.borrow(), vec![ConcreteDataType::Int64, ConcreteDataType::String]);
    assert_eq!(udaf.return_type(&[]).unwrap_err().message, "no input");
    assert_eq!(udaf.state_type(&ConcreteDataType::Int64).unwrap_err().message, "no state");
}

#[test]
fn accumulator_is_made_for_the_recorded_types() {
    let udaf = create_aggregate_function("rec".to_string(), 1, RecordingCreator { seen: RefCell::new(vec![]) });
    assert_eq!(udaf.accumulator().unwrap_err().message, "no types recorded");
    udaf.return_type(&[ConcreteDataType::UInt8]).unwrap();
    assert_eq!(udaf.accumulator().unwrap(), vec![ConcreteDataType::UInt8]);

    let dummy = create_aggregate_function("dummy".to_string(), 1, DummyAccumulatorCreator);
    assert!(matches!(dummy.accumulator(), Ok(DummyAccumulator)));
}

fn field(q: Option<&str>, name: &str) -> QualifiedField {
    QualifiedField { qualifier: q.map(|s| s.to_string()), name: name.to_string() }
}

#[test]
fn rename_projection_picks_matching_columns_in_order() {
    let schema = vec![field(Some("person"), "id"), field(Some("person"), "name"), field(None, "id")];
    let renames = vec![(0usize, "a".to_string()), (1usize, "b".to_string())];
    let items = rename_projection(&schema, &renames);
    assert_eq!(items, vec![(0, "a".to_string()), (1, "b".to_string())]);

    let renames = vec![(2usize, "c".to_string())];
    assert_eq!(rename_projection(&schema, &renames), vec![(2, "c".to_string())]);

    assert!(rename_projection(&schema, &vec![]).is_empty());
}

#[test]
fn rename_projection_repeats_duplicate_columns() {
    let schema = vec![field(Some("t"), "x"), field(Some("u"), "x"), field(Some("t"), "x")];
    let renames = vec![(2usize, "y".to_string())];
    assert_eq!(rename_projection(&schema, &renames), vec![(0, "y".to_string()), (2, "y".to_string())]);
}
