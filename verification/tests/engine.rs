// Invocations and images against a small stand-in for the engine, which
// counts references and checks the properties of the operations it knows.

use std::collections::HashMap;

use vips::arithmetic::OpArgs;
use vips::colour::ColourSpaceArgs;
use vips::engine::EngineCall;
use vips::operation::OpConvArguments;
use vips::operator::{Argument, Invocation};
use vips::run::Answers;
use vips::value::{GType, GValue, Value};
use vips::vips::{ensure_vips_init_or_exit, InitOnce};
use vips::{ErrorKind, VipsError, VipsImage};

enum Reply {
    Nothing,
    Status(i32),
    Handle(usize),
    Bytes(Vec<u8>),
}

struct Operation {
    name: String,
    properties: Vec<(String, GType)>,
    input: usize,
    scale: f64,
    output: usize,
}

struct Engine {
    started: u32,
    next: usize,
    refs: HashMap<usize, i64>,
    sizes: HashMap<usize, (i32, i32)>,
    operations: HashMap<usize, Operation>,
    buffer: String,
    log: Vec<String>,
    written: Vec<String>,
}

fn text(bytes: &[u8]) -> String {
    String::from_utf8(bytes.to_vec()).unwrap()
}

impl Engine {
    fn new() -> Engine {
        Engine {
            started: 0,
            next: 0x1000,
            refs: HashMap::new(),
            sizes: HashMap::new(),
            operations: HashMap::new(),
            buffer: String::new(),
            log: Vec::new(),
            written: Vec::new(),
        }
    }

    fn object(&mut self) -> usize {
        self.next += 0x10;
        self.refs.insert(self.next, 1);
        self.next
    }

    fn image(&mut self, width: i32, height: i32) -> usize {
        let handle = self.object();
        self.sizes.insert(handle, (width, height));
        handle
    }

    fn count(&self, object: usize) -> i64 {
        *self.refs.get(&object).unwrap_or(&0)
    }

    fn unref(&mut self, object: usize) {
        let count = self.refs.get_mut(&object).expect("unref of an unknown object");
        assert!(*count > 0, "unref of a freed object");
        *count -= 1;
    }

    fn schema(name: &str) -> Option<(&'static str, Vec<(&'static str, GType, bool)>)> {
        match name {
            "conv" => Some((
                "in",
                vec![
                    ("mask", GType::Image, true),
                    ("precision", GType::UInt, false),
                    ("layers", GType::UInt, false),
                    ("cluster", GType::UInt, false),
                ],
            )),
            "add" | "subtract" | "multiply" | "divide" => {
                Some(("left", vec![("right", GType::Image, true)]))
            }
            "linear" => Some((
                "in",
                vec![("a", GType::ArrayDouble, true), ("b", GType::ArrayDouble, true)],
            )),
            "colourspace" => Some((
                "in",
                vec![("space", GType::Int, true), ("source_space", GType::Int, false)],
            )),
            "resize" => Some(("in", vec![("scale", GType::Double, true)])),
            "LabQ2sRGB" => Some(("in", vec![])),
            _ => None,
        }
    }

    fn build(&mut self, operation: usize) -> usize {
        let (name, given) = {
            let op = self.operations.get(&operation).expect("build of an unknown operation");
            (op.name.clone(), op.properties.clone())
        };
        let (input, arguments) = Engine::schema(&name).unwrap();
        let mut wanted = vec![(input, GType::Image, true)];
        wanted.extend(arguments);
        for (property, gtype) in &given {
            match wanted.iter().find(|w| w.0 == property) {
                None => {
                    self.buffer = format!("{name}: no property named `{property}'\n");
                    return 0;
                }
                Some(w) if w.1 != *gtype => {
                    self.buffer = format!("{name}: property `{property}' has the wrong type\n");
                    return 0;
                }
                Some(_) => {}
            }
        }
        for w in &wanted {
            if w.2 && !given.iter().any(|g| g.0 == w.0) {
                self.buffer = format!("{name}: parameter {} not set\n", w.0);
                return 0;
            }
        }
        let (input, scale) = {
            let op = &self.operations[&operation];
            (op.input, op.scale)
        };
        let (width, height) = self.sizes[&input];
        let output = self.image(
            (width as f64 * scale).round() as i32,
            (height as f64 * scale).round() as i32,
        );
        self.operations.get_mut(&operation).unwrap().output = output;
        // The cache keeps one reference to the operation and hands out another.
        *self.refs.get_mut(&operation).unwrap() += 2;
        operation
    }

    fn perform(&mut self, call: &EngineCall) -> Reply {
        self.log.push(format!("{call:?}"));
        match call {
            EngineCall::Init { .. } => {
                self.started += 1;
                Reply::Status(0)
            }
            EngineCall::ErrorExit | EngineCall::Shutdown => Reply::Nothing,
            EngineCall::ImageNew => Reply::Handle(self.image(1, 1)),
            EngineCall::ImageNewFromFile { path } => {
                if path.as_bytes() == b"./data/test.jpg" {
                    Reply::Handle(self.image(385, 512))
                } else {
                    self.buffer = format!("file \"{}\" does not exist\n", text(path.as_bytes()));
                    Reply::Handle(0)
                }
            }
            EngineCall::ImageNewFromMemory { len, width, height, bands, .. }
            | EngineCall::ImageNewFromMemoryCopy { len, width, height, bands, .. } => {
                if (*width as i64) * (*height as i64) * (*bands as i64) == *len as i64 {
                    Reply::Handle(self.image(*width, *height))
                } else {
                    self.buffer = String::from("memory area too small\n");
                    Reply::Handle(0)
                }
            }
            EngineCall::ImageNewMatrix { width, height } => {
                Reply::Handle(self.image(*width, *height))
            }
            EngineCall::ImageNewMatrixFromArray { width, height, n } => {
                if width * height == *n {
                    Reply::Handle(self.image(*width, *height))
                } else {
                    self.buffer = String::from("bad array length\n");
                    Reply::Handle(0)
                }
            }
            EngineCall::ImageNewFromImage { image, .. }
            | EngineCall::ImageNewFromImage1 { image, .. } => {
                let (width, height) = self.sizes[image];
                Reply::Handle(self.image(width, height))
            }
            EngineCall::ImageWriteToFile { image, path } => {
                assert!(self.count(*image) > 0, "write of a freed image");
                let path = text(path.as_bytes());
                if path.ends_with(".jpg") || path.ends_with(".tif") {
                    self.written.push(path);
                    Reply::Status(0)
                } else {
                    self.buffer = format!("\"{path}\" is not a known file format\n");
                    Reply::Status(-1)
                }
            }
            EngineCall::ImageGetBands { image } => {
                assert!(self.count(*image) > 0);
                Reply::Status(3)
            }
            EngineCall::ColourspaceIsSupported { image } => {
                assert!(self.count(*image) > 0);
                Reply::Status(1)
            }
            EngineCall::ObjectRef { object } => {
                assert!(self.count(*object) > 0, "ref of a freed object");
                *self.refs.get_mut(object).unwrap() += 1;
                Reply::Nothing
            }
            EngineCall::ObjectUnref { object } => {
                self.unref(*object);
                Reply::Nothing
            }
            EngineCall::OperationNew { name } => {
                let name = text(name.as_bytes());
                if Engine::schema(&name).is_none() {
                    self.buffer = format!("class \"{name}\" not found\n");
                    return Reply::Handle(0);
                }
                let handle = self.object();
                self.operations.insert(
                    handle,
                    Operation { name, properties: Vec::new(), input: 0, scale: 1.0, output: 0 },
                );
                Reply::Handle(handle)
            }
            EngineCall::SetProperty { object, name, value } => {
                let op = self.operations.get_mut(object).expect("property of an unknown object");
                let name = text(name.as_bytes());
                match value {
                    GValue::Object(image) if name == "in" || name == "left" => op.input = *image,
                    GValue::Double(bits) if name == "scale" => op.scale = f64::from_bits(*bits),
                    _ => {}
                }
                op.properties.push((name, value.gtype()));
                Reply::Nothing
            }
            EngineCall::CacheOperationBuild { operation } => Reply::Handle(self.build(*operation)),
            EngineCall::GetProperty { object, name } => {
                assert_eq!(name.as_bytes(), b"out");
                Reply::Handle(self.operations[object].output)
            }
            EngineCall::ValueUnset => Reply::Nothing,
            EngineCall::UnrefOutputs { object } => {
                let output = self.operations[object].output;
                self.unref(output);
                Reply::Nothing
            }
            EngineCall::ErrorBuffer => Reply::Bytes(self.buffer.clone().into_bytes()),
        }
    }

    fn handle(&mut self, call: &EngineCall) -> usize {
        match self.perform(call) {
            Reply::Handle(handle) => handle,
            _ => panic!("the engine answered no handle"),
        }
    }

    fn all(&mut self, calls: &[EngineCall]) -> Reply {
        let mut last = Reply::Nothing;
        for call in calls {
            last = self.perform(call);
        }
        last
    }

    fn make(&mut self, call: EngineCall) -> Result<VipsImage, VipsError> {
        let raw = self.handle(&call);
        VipsImage::from_c_ptr(raw)
    }

    fn load(&mut self, path: &str) -> Result<VipsImage, VipsError> {
        let call = VipsImage::new_from_file(path.as_bytes())?;
        self.make(call)
    }

    fn write(&mut self, image: &VipsImage, path: &str) -> Result<(), VipsError> {
        let call = image.write_to_file(path.as_bytes())?;
        let status = match self.perform(&call) {
            Reply::Status(status) => status,
            _ => panic!("the engine answered no status"),
        };
        match vips::engine::capture_after(status) {
            None => Ok(()),
            Some(read) => match self.perform(&read) {
                Reply::Bytes(bytes) => Err(VipsError::new_from_vips_state(&bytes)),
                _ => panic!("the engine answered no bytes"),
            },
        }
    }

    fn invoke(&mut self, invocation: Invocation) -> Result<VipsImage, VipsError> {
        let operation = self.handle(&invocation.request());
        let (calls, submitted) = invocation.created(operation);
        let reply = self.all(&calls);
        let submitted = submitted?;
        let handle = match reply {
            Reply::Handle(handle) => handle,
            _ => panic!("the engine answered no handle"),
        };
        let (calls, built) = submitted.built(handle);
        match (self.all(&calls), built) {
            (Reply::Bytes(bytes), None) => Err(VipsError::new_from_vips_state(&bytes)),
            (Reply::Handle(out), Some(built)) => {
                let (calls, result) = built.output(out);
                self.all(&calls);
                result
            }
            _ => panic!("the engine answered neither bytes nor a handle"),
        }
    }
}

fn started() -> Engine {
    let mut engine = Engine::new();
    let mut once = InitOnce::new();
    if let Some(call) = ensure_vips_init_or_exit(&mut once, Some("test")) {
        engine.perform(&call);
    }
    engine
}

fn test_image(engine: &mut Engine) -> VipsImage {
    let img = engine.load("./data/test.jpg").expect("Image could not be created from file");
    assert_ne!(img.ptr, 0);
    img
}

#[test]
fn image_new() {
    let mut engine = started();
    let image = engine.make(VipsImage::new()).expect("the engine made no image");
    assert_ne!(image.ptr, 0);
}

#[test]
fn vips_image_io() {
    let mut engine = started();
    let img = test_image(&mut engine);
    engine.write(&img, "./data/test_out.jpg").expect("Could not save image to file");
    assert_eq!(engine.written, vec![String::from("./data/test_out.jpg")]);
}

#[test]
fn arithmetic_add() {
    let mut engine = started();
    let img = test_image(&mut engine);
    let added = engine.invoke(img.add(&img)).expect("Could not add image");
    assert_ne!(added.ptr, 0);
    assert_eq!(engine.count(added.ptr), 1);
    assert_eq!(engine.count(img.ptr), 1);
}

#[test]
fn arithmetic_subtract() {
    let mut engine = started();
    let img = test_image(&mut engine);
    let subtracted = engine.invoke(img.subtract(&img)).expect("Could not subtract image");
    assert_ne!(subtracted.ptr, 0);
}

#[test]
fn multiply() {
    let mut engine = started();
    let img = test_image(&mut engine);
    let multiplied = engine.invoke(img.multiply(&img)).expect("Could not multiply image");
    assert_ne!(multiplied.ptr, 0);
}

#[test]
fn divide() {
    let mut engine = started();
    let img = test_image(&mut engine);
    let divided = engine.invoke(img.divide(&img)).expect("Could not divide image");
    assert_ne!(divided.ptr, 0);
}

#[test]
fn linear() {
    let mut engine = started();
    let img = test_image(&mut engine);
    let less = engine.invoke(img.minus_constant(30f64.to_bits())).unwrap();
    let inverse: Vec<u64> = vec![0.9f64, 1.1, 1.].iter().map(|x| (1f64 / x).to_bits()).collect();
    let transformed = engine.invoke(less.times_constants(&inverse)).unwrap();
    assert_ne!(transformed.ptr, 0);
    assert!(engine.log.iter().any(|call| call.contains(&format!("{}", (-30f64).to_bits()))));
}

#[test]
fn colourspace_issupported() {
    let mut engine = started();
    let img = test_image(&mut engine);
    let call = img.colourspace_issupported().unwrap();
    match engine.perform(&call) {
        Reply::Status(answer) => assert!(answer != 0),
        _ => panic!("the engine answered no number"),
    }
}

#[test]
fn colourspace() {
    let mut engine = started();
    let img = test_image(&mut engine);
    let rgb16 = 25;
    let result = engine
        .invoke(img.colourspace(ColourSpaceArgs { space: rgb16, source_space: None }))
        .expect("Could not change colourspace");
    engine.write(&result, "./data/test_result.tif").expect("Could not save image to file");
}

fn convolve_with(kernel_sum: f64) {
    let mut engine = started();
    let img = test_image(&mut engine);
    let kernel_size = 64;
    let kernel = engine
        .make(VipsImage::new_matrix(kernel_size, kernel_size))
        .expect("Could not create kernel");
    let kernel_n_px: f64 = (kernel_size * kernel_size).try_into().unwrap();
    let _kernel_v = kernel_sum / kernel_n_px;
    let convolved = engine
        .invoke(img.conv(OpConvArguments {
            mask: &kernel,
            precision: None,
            layers: None,
            cluster: None,
        }))
        .expect("Error while applying operation `conv`");
    engine.write(&convolved, "./data/test_convolved.jpg").expect("Could not save image to file");
}

#[test]
fn operation_convolve() {
    convolve_with(255f64);
}

#[test]
fn operator_convolve() {
    convolve_with(16f64);
}

#[test]
fn operation_add() {
    let mut engine = started();
    let img = test_image(&mut engine);
    let _added = engine.invoke(img.add(&img)).expect("Could not add image");
}

#[test]
fn operation_subtract() {
    let mut engine = started();
    let img = test_image(&mut engine);
    let _subtracted = engine.invoke(img.subtract(&img)).expect("Could not subtract image");
}

#[test]
fn resize_by_a_quarter() {
    let mut engine = started();
    let img = test_image(&mut engine);
    assert_eq!(engine.sizes[&img.ptr], (385, 512));
    let args = [Argument { name: "scale", value: Value::Double(0.25f64.to_bits()) }];
    let invocation = Invocation::begin("resize", "in", &img, &args).unwrap();
    let resized = engine.invoke(invocation).unwrap();
    assert_eq!(engine.sizes[&resized.ptr], (96, 128));
}

#[test]
fn add_then_subtract_gives_handles_of_their_own() {
    let mut engine = started();
    let img = test_image(&mut engine);
    let sum = engine.invoke(img.add(&img)).unwrap();
    let back = engine.invoke(sum.subtract(&img)).unwrap();
    assert_ne!(back.ptr, 0);
    assert_ne!(back.ptr, sum.ptr);
    assert_ne!(back.ptr, img.ptr);
    for image in [&img, &sum, &back] {
        assert_eq!(engine.count(image.ptr), 1);
    }
}

#[test]
fn unknown_operation_is_a_creation_error() {
    let mut engine = started();
    let img = test_image(&mut engine);
    let invocation = img.operation("LabQ2sRBG").unwrap();
    let e = engine.invoke(invocation).unwrap_err();
    assert_eq!(e.kind(), ErrorKind::Creation);
    assert_eq!(e.description(), "Could not create operation");
    assert_eq!(engine.log.last().unwrap(), "OperationNew { name: CText { bytes: [76, 97, 98, 81, 50, 115, 82, 66, 71] } }");
}

#[test]
fn known_operation_without_arguments_runs() {
    let mut engine = started();
    let img = test_image(&mut engine);
    let invocation = img.operation("LabQ2sRGB").unwrap();
    let out = engine.invoke(invocation).unwrap();
    assert_eq!(engine.count(out.ptr), 1);
}

#[test]
fn mismatched_argument_type_is_an_engine_error() {
    let mut engine = started();
    let img = test_image(&mut engine);
    let args = [Argument { name: "right", value: Value::Int(3) }];
    let invocation = Invocation::begin("add", "left", &img, &args).unwrap();
    let e = engine.invoke(invocation).unwrap_err();
    assert_eq!(e.kind(), ErrorKind::Engine);
    assert!(!e.description().is_empty());
    assert_eq!(e.description(), "add: property `right' has the wrong type\n");
}

#[test]
fn failed_build_releases_the_operation() {
    let mut engine = started();
    let img = test_image(&mut engine);
    let args = [Argument { name: "right", value: Value::Bool(true) }];
    let invocation = Invocation::begin("add", "left", &img, &args).unwrap();
    let _ = engine.invoke(invocation).unwrap_err();
    let operation = *engine.operations.keys().next().unwrap();
    assert_eq!(engine.count(operation), 0);
    assert_eq!(engine.count(img.ptr), 1);
}

#[test]
fn successful_run_releases_what_it_was_given() {
    let mut engine = started();
    let img = test_image(&mut engine);
    let out = engine.invoke(img.add(&img)).unwrap();
    let operation = *engine.operations.keys().next().unwrap();
    // One reference is left: the one that the engine's cache holds.
    assert_eq!(engine.count(operation), 1);
    assert_eq!(engine.count(out.ptr), 1);
    assert_eq!(engine.count(img.ptr), 1);
}

#[test]
fn first_error_text_is_not_that_of_the_second_failure() {
    let mut engine = started();
    let img = test_image(&mut engine);
    let first_args = [Argument { name: "right", value: Value::Int(3) }];
    let first = Invocation::begin("add", "left", &img, &first_args).unwrap();
    let second_args = [Argument { name: "wrong", value: Value::Int(3) }];
    let second = Invocation::begin("subtract", "left", &img, &second_args).unwrap();
    let first_error = engine.invoke(first).unwrap_err();
    let second_error = engine.invoke(second).unwrap_err();
    assert_eq!(first_error.description(), "add: property `right' has the wrong type\n");
    assert_eq!(second_error.description(), "subtract: no property named `wrong'\n");
}

#[test]
fn error_buffer_is_read_right_after_the_failed_build() {
    let mut engine = started();
    let img = test_image(&mut engine);
    let invocation = img.add(&VipsImage { ptr: 0 });
    let operation = engine.handle(&invocation.request());
    let (calls, submitted) = invocation.created(operation);
    assert!(matches!(calls.last(), Some(EngineCall::CacheOperationBuild { .. })));
    let (calls, built) = submitted.unwrap().built(0);
    assert!(built.is_none());
    assert_eq!(calls.len(), 2);
    assert!(matches!(calls[0], EngineCall::ObjectUnref { object } if object == operation));
    assert!(matches!(calls[1], EngineCall::ErrorBuffer));
}

#[test]
fn absent_argument_makes_the_calls_of_the_shorter_list() {
    let img = VipsImage { ptr: 0x40 };
    let kernel = VipsImage { ptr: 0x50 };
    let with = [
        Argument { name: "mask", value: Value::Image(&kernel) },
        Argument { name: "layers", value: Value::Absent },
        Argument { name: "cluster", value: Value::UInt(2) },
    ];
    let without = [
        Argument { name: "mask", value: Value::Image(&kernel) },
        Argument { name: "cluster", value: Value::UInt(2) },
    ];
    let answers = Answers { operation: 0x60, built: 0x70, out: 0x80, buffer: Vec::new() };
    let (calls_with, result_with) =
        Invocation::begin("conv", "in", &img, &with).unwrap().run(&answers);
    let (calls_without, result_without) =
        Invocation::begin("conv", "in", &img, &without).unwrap().run(&answers);
    assert_eq!(format!("{calls_with:?}"), format!("{calls_without:?}"));
    assert_eq!(result_with.unwrap().ptr, 0x80);
    assert_eq!(result_without.unwrap().ptr, 0x80);
    assert_eq!(calls_with.len(), 11);
}

#[test]
fn run_gives_the_calls_in_order() {
    let img = VipsImage { ptr: 0x40 };
    let right = VipsImage { ptr: 0x50 };
    let answers = Answers { operation: 0x60, built: 0x70, out: 0x80, buffer: Vec::new() };
    let (calls, result) = img.add(&right).run(&answers);
    let shown: Vec<String> = calls.iter().map(|call| format!("{call:?}")).collect();
    assert_eq!(
        shown,
        vec![
            "OperationNew { name: CText { bytes: [97, 100, 100] } }",
            "SetProperty { object: 96, name: CText { bytes: [108, 101, 102, 116] }, value: Object(64) }",
            "SetProperty { object: 96, name: CText { bytes: [114, 105, 103, 104, 116] }, value: Object(80) }",
            "CacheOperationBuild { operation: 96 }",
            "ObjectUnref { object: 96 }",
            "GetProperty { object: 112, name: CText { bytes: [111, 117, 116] } }",
            "ObjectRef { object: 128 }",
            "ValueUnset",
            "UnrefOutputs { object: 112 }",
            "ObjectUnref { object: 112 }",
        ]
    );
    assert_eq!(result.unwrap().ptr, 0x80);
}

#[test]
fn run_without_an_output_still_releases() {
    let img = VipsImage { ptr: 0x40 };
    let answers = Answers { operation: 0x60, built: 0x70, out: 0, buffer: Vec::new() };
    let (calls, result) = img.add(&img).run(&answers);
    let e = result.unwrap_err();
    assert_eq!(e.kind(), ErrorKind::NullHandle);
    assert_eq!(e.description(), "Cannot wrap nullptr in VipsImage");
    let shown: Vec<String> = calls[6..].iter().map(|call| format!("{call:?}")).collect();
    assert_eq!(shown, vec!["ValueUnset", "UnrefOutputs { object: 112 }", "ObjectUnref { object: 112 }"]);
}

#[test]
fn run_with_a_failed_build_reads_the_buffer() {
    let img = VipsImage { ptr: 0x40 };
    let answers = Answers {
        operation: 0x60,
        built: 0,
        out: 0x80,
        buffer: b"add: images do not match\n".to_vec(),
    };
    let (calls, result) = img.add(&img).run(&answers);
    let e = result.unwrap_err();
    assert_eq!(e.kind(), ErrorKind::Engine);
    assert_eq!(e.description(), "add: images do not match\n");
    assert_eq!(calls.len(), 6);
    assert!(matches!(calls[4], EngineCall::ObjectUnref { object: 0x60 }));
    assert!(matches!(calls[5], EngineCall::ErrorBuffer));
}

#[test]
fn null_primary_input_is_a_marshal_error_and_releases_the_operation() {
    let img = VipsImage { ptr: 0 };
    let right = VipsImage { ptr: 0x50 };
    let answers = Answers { operation: 0x60, built: 0x70, out: 0x80, buffer: Vec::new() };
    let (calls, result) = img.add(&right).run(&answers);
    let e = result.unwrap_err();
    assert_eq!(e.kind(), ErrorKind::Marshal);
    assert_eq!(e.description(), "Failed to convert input image to GValue");
    assert_eq!(calls.len(), 2);
    assert!(matches!(calls[1], EngineCall::ObjectUnref { object: 0x60 }));
}

#[test]
fn creation_error_comes_before_the_marshal_error() {
    let img = VipsImage { ptr: 0 };
    let answers = Answers { operation: 0, built: 0x70, out: 0x80, buffer: Vec::new() };
    let (calls, result) = img.add(&img).run(&answers);
    assert_eq!(result.unwrap_err().kind(), ErrorKind::Creation);
    assert_eq!(calls.len(), 1);
}

#[test]
fn name_with_a_zero_byte_asks_nothing_of_the_engine() {
    let img = VipsImage { ptr: 0x40 };
    let e = img.operation("ab\0c").unwrap_err();
    assert_eq!(e.kind(), ErrorKind::Conversion);
    assert_eq!(e.description(), "nul byte found in provided data at position: 2");
}

#[test]
fn argument_name_with_a_zero_byte_fails_unless_the_argument_is_absent() {
    let img = VipsImage { ptr: 0x40 };
    let answers = Answers { operation: 0x60, built: 0x70, out: 0x80, buffer: Vec::new() };
    let bad = [Argument { name: "sca\0le", value: Value::Int(1) }];
    let (calls, result) = Invocation::begin("resize", "in", &img, &bad).unwrap().run(&answers);
    let e = result.unwrap_err();
    assert_eq!(e.kind(), ErrorKind::Conversion);
    assert_eq!(e.description(), "nul byte found in provided data at position: 3");
    assert_eq!(calls.len(), 2);
    let absent = [Argument { name: "sca\0le", value: Value::Absent }];
    let (_, result) = Invocation::begin("resize", "in", &img, &absent).unwrap().run(&answers);
    assert_eq!(result.unwrap().ptr, 0x80);
}

#[test]
fn linear1_binds_one_scale_and_one_offset() {
    let img = VipsImage { ptr: 0x40 };
    let answers = Answers { operation: 0x60, built: 0x70, out: 0x80, buffer: Vec::new() };
    let (calls, _) = img.linear1(OpArgs { a: 2f64.to_bits(), b: 3f64.to_bits() }).run(&answers);
    assert_eq!(
        format!("{:?}", calls[2]),
        format!(
            "SetProperty {{ object: 96, name: CText {{ bytes: [97] }}, value: ArrayDouble([{}]) }}",
            2f64.to_bits()
        )
    );
    assert_eq!(
        format!("{:?}", calls[3]),
        format!(
            "SetProperty {{ object: 96, name: CText {{ bytes: [98] }}, value: ArrayDouble([{}]) }}",
            3f64.to_bits()
        )
    );
}

#[test]
fn share_then_release_leaves_the_count_as_it_was() {
    let mut engine = started();
    let img = test_image(&mut engine);
    let before = engine.count(img.ptr);
    let (mut second, call) = img.share();
    engine.perform(&call.unwrap());
    assert_eq!(second.ptr, img.ptr);
    assert_eq!(engine.count(img.ptr), before + 1);
    let call = second.release();
    engine.perform(&call.unwrap());
    assert_eq!(engine.count(img.ptr), before);
    assert_eq!(second.ptr, 0);
    assert!(second.release().is_none());
}

#[test]
fn engine_is_started_once() {
    let mut engine = Engine::new();
    let mut once = InitOnce::new();
    assert!(!once.has_fired());
    for _ in 0..3 {
        if let Some(call) = ensure_vips_init_or_exit(&mut once, Some("prog")) {
            engine.perform(&call);
        }
        assert!(once.has_fired());
    }
    assert_eq!(engine.started, 1);
    assert_eq!(engine.log, vec!["Init { program: CText { bytes: [112, 114, 111, 103] } }"]);
}
