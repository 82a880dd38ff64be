use std::cell::Cell;

use aoti_rs::{AOTIModel, AOTIModelBuilder, AOTIModelError, MetadataEntry, ModelConfig};

/// A host tensor: a shape and the values in it.
#[derive(Debug, Clone, PartialEq)]
struct Tensor {
    shape: Vec<usize>,
    values: Vec<i64>,
}

/// A borrowed reference to a host tensor: its place in the input list.
#[derive(Debug, Clone, PartialEq)]
struct TensorRef {
    shape: Vec<usize>,
    values: Vec<i64>,
}

/// An owned handle to a native tensor. It cannot be copied.
#[derive(Debug)]
struct OwnedTensor {
    shape: Vec<usize>,
    values: Vec<i64>,
}

/// A stand-in for the native loader: it doubles each value of each input,
/// and counts the calls made on it.
#[derive(Debug)]
struct Loader {
    package: String,
    model_name: String,
    calls: u32,
}

fn construct(config: ModelConfig) -> Result<Loader, String> {
    if config.path.ends_with(".pt2") {
        Ok(Loader { package: config.path, model_name: config.model_name, calls: 0 })
    } else {
        Err(format!("not a model package: {}", config.path))
    }
}

fn borrow(tensor: &Tensor) -> TensorRef {
    TensorRef { shape: tensor.shape.clone(), values: tensor.values.clone() }
}

fn adopt(owned: OwnedTensor) -> Tensor {
    Tensor { shape: owned.shape, values: owned.values }
}

fn native_run(loader: &mut Loader, inputs: &Vec<TensorRef>) -> Result<Vec<OwnedTensor>, String> {
    loader.calls += 1;
    if inputs.is_empty() {
        return Err(String::from("expected at least one input"));
    }
    Ok(inputs
        .iter()
        .map(|input| OwnedTensor {
            shape: input.shape.clone(),
            values: input.values.iter().map(|v| v * 2).collect(),
        })
        .collect())
}

fn native_boxed_run(
    loader: &mut Loader,
    inputs: &mut Vec<TensorRef>,
) -> Result<Vec<OwnedTensor>, String> {
    let outcome = native_run(loader, inputs);
    inputs.clear();
    outcome
}

fn native_metadata(package: &str, model_name: &str) -> Result<Vec<MetadataEntry>, String> {
    if !package.ends_with(".pt2") {
        return Err(format!("not a model package: {}", package));
    }
    Ok(vec![
        MetadataEntry { key: String::from("AOTI_DEVICE_KEY"), value: String::from("cpu") },
        MetadataEntry { key: String::from("model"), value: model_name.to_string() },
        MetadataEntry { key: String::from("AOTI_DEVICE_KEY"), value: String::from("cuda") },
    ])
}

fn native_get_metadata(loader: &mut Loader) -> Result<Vec<MetadataEntry>, String> {
    loader.calls += 1;
    native_metadata(&loader.package, &loader.model_name)
}

fn native_get_call_spec(loader: &mut Loader) -> Result<Vec<String>, String> {
    loader.calls += 1;
    Ok(vec![String::from("in: [2, 3]"), String::from("out: [2, 3]")])
}

fn native_get_constant_fqns(loader: &mut Loader) -> Result<Vec<String>, String> {
    loader.calls += 1;
    Ok(vec![String::from("layer.1.weight"), String::from("layer.0.weight")])
}

fn loaded() -> AOTIModel<Loader> {
    AOTIModelBuilder::new("net.pt2").build(construct).unwrap()
}

fn input() -> Tensor {
    Tensor { shape: vec![2, 3], values: vec![1, -2, 3, 4, 5, 6] }
}

#[test]
fn run_returns_one_tensor_for_each_owned_handle() {
    let mut model = loaded();
    let inputs = vec![input(), Tensor { shape: vec![1], values: vec![7] }];
    let outputs = model.run(&inputs, borrow, native_run, adopt).unwrap();
    assert_eq!(
        outputs,
        vec![
            Tensor { shape: vec![2, 3], values: vec![2, -4, 6, 8, 10, 12] },
            Tensor { shape: vec![1], values: vec![14] },
        ]
    );
    assert_eq!(inputs[0], input());
}

#[test]
fn run_makes_the_boundary_call_once_on_the_owned_handle() {
    let mut model = loaded();
    let borrowed = Cell::new(0u32);
    let adopted = Cell::new(0u32);
    let outputs = model
        .run(
            &[input(), input(), input()],
            |t: &Tensor| {
                borrowed.set(borrowed.get() + 1);
                borrow(t)
            },
            native_run,
            |o: OwnedTensor| {
                adopted.set(adopted.get() + 1);
                adopt(o)
            },
        )
        .unwrap();
    assert_eq!(outputs.len(), 3);
    assert_eq!(borrowed.get(), 3);
    assert_eq!(adopted.get(), 3);
    let loader = model.release().unwrap();
    assert_eq!(loader.calls, 1);
    assert_eq!(loader.package, "net.pt2");
}

#[test]
fn run_wraps_a_native_failure_and_stays_usable() {
    let mut model = loaded();
    let no_inputs: Vec<Tensor> = Vec::new();
    match model.run(&no_inputs, borrow, native_run, adopt) {
        Err(AOTIModelError::Cxx(what)) => assert_eq!(what, "expected at least one input"),
        other => panic!("expected a native failure, got {:?}", other),
    }
    assert!(model.is_loaded());
    let outputs = model.run(&[input()], borrow, native_run, adopt).unwrap();
    assert_eq!(outputs.len(), 1);
}

#[test]
fn boxed_run_gives_what_run_gives() {
    let mut model = loaded();
    let inputs = vec![input(), Tensor { shape: vec![2], values: vec![0, 9] }];
    let ran = model.run(&inputs, borrow, native_run, adopt).unwrap();
    let boxed_ran = model.boxed_run(&inputs, borrow, native_boxed_run, adopt).unwrap();
    assert_eq!(ran, boxed_ran);
    assert_eq!(boxed_ran[1], Tensor { shape: vec![2], values: vec![0, 18] });
}

#[test]
fn boxed_run_wraps_a_native_failure() {
    let mut model = loaded();
    let no_inputs: Vec<Tensor> = Vec::new();
    match model.boxed_run(&no_inputs, borrow, native_boxed_run, adopt) {
        Err(AOTIModelError::Cxx(what)) => assert_eq!(what, "expected at least one input"),
        other => panic!("expected a native failure, got {:?}", other),
    }
}

#[test]
fn get_metadata_normalises_the_entries() {
    let mut model = loaded();
    let metadata = model.get_metadata(native_get_metadata).unwrap();
    assert_eq!(metadata.len(), 2);
    assert_eq!(metadata.get("AOTI_DEVICE_KEY").map(String::as_str), Some("cuda"));
    assert_eq!(metadata.get("model").map(String::as_str), Some("model"));
}

#[test]
fn metadata_right_after_construction_holds_the_device_key() {
    let mut model = AOTIModelBuilder::new("net.pt2")
        .model_name("encoder")
        .single_threaded(true)
        .num_runners(3)
        .device_index(1)
        .build(construct)
        .unwrap();
    let metadata = model.get_metadata(native_get_metadata).unwrap();
    assert!(metadata.contains_key("AOTI_DEVICE_KEY"));
    assert_eq!(metadata.get("model").map(String::as_str), Some("encoder"));
}

#[test]
fn get_metadata_wraps_a_native_failure() {
    let mut model = loaded();
    let got = model.get_metadata(|_loader: &mut Loader| Err(String::from("metadata unreadable")));
    match got {
        Err(AOTIModelError::Cxx(what)) => assert_eq!(what, "metadata unreadable"),
        _ => panic!("expected a native failure"),
    }
}

#[test]
fn get_call_spec_keeps_the_texts_in_order() {
    let mut model = loaded();
    let spec = model.get_call_spec(native_get_call_spec).unwrap();
    assert_eq!(spec, vec![String::from("in: [2, 3]"), String::from("out: [2, 3]")]);
}

#[test]
fn get_call_spec_wraps_a_native_failure() {
    let mut model = loaded();
    match model.get_call_spec(|_loader: &mut Loader| Err(String::from("no call spec"))) {
        Err(AOTIModelError::Cxx(what)) => assert_eq!(what, "no call spec"),
        other => panic!("expected a native failure, got {:?}", other),
    }
}

#[test]
fn get_constant_fqns_keeps_the_names_in_order() {
    let mut model = loaded();
    let names = model.get_constant_fqns(native_get_constant_fqns).unwrap();
    assert_eq!(names, vec![String::from("layer.1.weight"), String::from("layer.0.weight")]);
}

#[test]
fn get_constant_fqns_wraps_a_native_failure() {
    let mut model = loaded();
    match model.get_constant_fqns(|_loader: &mut Loader| Err(String::from("no constants"))) {
        Err(AOTIModelError::Cxx(what)) => assert_eq!(what, "no constants"),
        other => panic!("expected a native failure, got {:?}", other),
    }
}

#[test]
fn load_metadata_from_package_needs_no_loader() {
    let metadata =
        AOTIModel::<Loader>::load_metadata_from_package("net.pt2", "model", native_metadata)
            .unwrap();
    assert_eq!(metadata.len(), 2);
    assert_eq!(metadata.get("AOTI_DEVICE_KEY").map(String::as_str), Some("cuda"));
    assert_eq!(metadata.get("model").map(String::as_str), Some("model"));
}

#[test]
fn load_metadata_from_package_hands_the_arguments_to_the_call() {
    let metadata = AOTIModel::<Loader>::load_metadata_from_package(
        "net.pt2",
        "decoder",
        |package: &str, model_name: &str| {
            Ok(vec![
                MetadataEntry { key: String::from("package"), value: package.to_string() },
                MetadataEntry { key: String::from("name"), value: model_name.to_string() },
            ])
        },
    )
    .unwrap();
    assert_eq!(metadata.get("package").map(String::as_str), Some("net.pt2"));
    assert_eq!(metadata.get("name").map(String::as_str), Some("decoder"));
}

#[test]
fn load_metadata_from_package_hands_a_failure_on_unchanged() {
    let got = AOTIModel::<Loader>::load_metadata_from_package("net.zip", "model", native_metadata);
    match got {
        Ok(_) => panic!("a failure made a mapping"),
        Err(what) => assert_eq!(what, "not a model package: net.zip"),
    }
}

#[test]
fn package_metadata_equals_loader_metadata() {
    let from_package =
        AOTIModel::<Loader>::load_metadata_from_package("net.pt2", "model", native_metadata)
            .unwrap();
    let mut model = loaded();
    let from_loader = model.get_metadata(native_get_metadata).unwrap();
    assert_eq!(from_package.len(), from_loader.len());
    for key in ["AOTI_DEVICE_KEY", "model"] {
        assert!(from_package.contains_key(key));
        assert_eq!(from_package.get(key), from_loader.get(key));
    }
}

#[test]
fn release_hands_the_handle_out_once() {
    let mut model = loaded();
    assert!(model.is_loaded());
    let first = model.release();
    assert!(first.is_some());
    assert!(!model.is_loaded());
    assert!(model.release().is_none());
}

#[test]
fn every_call_after_release_fails_with_invalid_state() {
    let mut model = loaded();
    drop(model.release());
    let called = Cell::new(0u32);

    let ran = model.run(
        &[input()],
        borrow,
        |loader: &mut Loader, refs: &Vec<TensorRef>| {
            called.set(called.get() + 1);
            native_run(loader, refs)
        },
        adopt,
    );
    assert!(matches!(ran, Err(AOTIModelError::InnerNone)));

    let boxed_ran = model.boxed_run(
        &[input()],
        borrow,
        |loader: &mut Loader, refs: &mut Vec<TensorRef>| {
            called.set(called.get() + 1);
            native_boxed_run(loader, refs)
        },
        adopt,
    );
    assert!(matches!(boxed_ran, Err(AOTIModelError::InnerNone)));

    let metadata = model.get_metadata(|loader: &mut Loader| {
        called.set(called.get() + 1);
        native_get_metadata(loader)
    });
    assert!(matches!(metadata, Err(AOTIModelError::InnerNone)));

    let spec = model.get_call_spec(|loader: &mut Loader| {
        called.set(called.get() + 1);
        native_get_call_spec(loader)
    });
    assert!(matches!(spec, Err(AOTIModelError::InnerNone)));

    let names = model.get_constant_fqns(|loader: &mut Loader| {
        called.set(called.get() + 1);
        native_get_constant_fqns(loader)
    });
    assert!(matches!(names, Err(AOTIModelError::InnerNone)));

    assert_eq!(called.get(), 0);
    assert!(!model.is_loaded());
}

#[test]
fn a_bad_package_path_fails_natively_and_leaves_no_facade() {
    let built = AOTIModelBuilder::new("net.zip").build(construct);
    match built {
        Ok(_) => panic!("a bad package made a facade"),
        Err(what) => assert_eq!(what, "not a model package: net.zip"),
    }
}

#[test]
fn one_runner_default_device_one_input_one_output_of_the_declared_shape() {
    let mut model =
        AOTIModelBuilder::new("net.pt2").num_runners(1).device_index(-1).build(construct).unwrap();
    let spec = model.get_call_spec(native_get_call_spec).unwrap();
    let outputs = model.run(&[input()], borrow, native_run, adopt).unwrap();
    assert_eq!(outputs.len(), 1);
    assert_eq!(format!("out: {:?}", outputs[0].shape), spec[1]);
    assert_eq!(outputs[0].values, vec![2, -4, 6, 8, 10, 12]);
}
