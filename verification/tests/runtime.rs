use oid::backends::{model_load, model_unload, Backend, BackendManager};
use oid::catalog::{ModelMetadata, ModelRegistry, ModelStatus, RegistryStore};
use oid::runtime::{parse_cpu_details, parse_memory_details, MockBackend};
use oid::shared::{EventLog, RuntimeError, RuntimeEvent};
use std::sync::Mutex;

#[test]
fn manager_registers_enables_and_selects_backend() {
    let mut manager: BackendManager<MockBackend> = BackendManager::new(EventLog::new());
    manager.register(MockBackend).expect("register backend");
    manager.enable("mock").expect("enable backend");
    let summary = manager.discover();
    assert_eq!(summary.len(), 1);
    assert!(summary[0].enabled);
    assert!(summary[0].active);
    assert_eq!(manager.active_backend().as_deref(), Some("mock"));
}

#[test]
fn manager_refuses_unknown_duplicate_and_disabled_backends() {
    let mut manager: BackendManager<MockBackend> = BackendManager::new(EventLog::new());
    assert_eq!(
        manager.enable("mock"),
        Err(RuntimeError::BackendNotFound("mock".to_owned()))
    );
    manager.register(MockBackend).expect("register backend");
    assert_eq!(
        manager.register(MockBackend),
        Err(RuntimeError::BackendAlreadyRegistered("mock".to_owned()))
    );
    assert_eq!(
        manager.select_active("mock"),
        Err(RuntimeError::BackendNotEnabled("mock".to_owned()))
    );
    assert_eq!(
        manager.select_active("other"),
        Err(RuntimeError::BackendNotFound("other".to_owned()))
    );
    assert!(manager.health("other").is_none());
    assert_eq!(manager.health("mock"), Some(oid::runtime::BackendHealth::Healthy));
}

#[test]
fn disabling_the_active_backend_passes_the_role_on() {
    let mut manager: BackendManager<MockBackend> = BackendManager::new(EventLog::new());
    let descriptor = |id: &str| oid::runtime::BackendDescriptor {
        id: id.to_owned(),
        name: id.to_owned(),
        version: "1".to_owned(),
    };
    manager.register_descriptor(descriptor("b"), MockBackend).expect("b");
    manager.register_descriptor(descriptor("a"), MockBackend).expect("a");
    manager.register_descriptor(descriptor("c"), MockBackend).expect("c");
    manager.mark_enabled("c").expect("enable c");
    manager.mark_enabled("b").expect("enable b");
    manager.mark_enabled("a").expect("enable a");
    assert_eq!(manager.active_backend().as_deref(), Some("c"));
    let ids: Vec<String> = manager
        .discover()
        .into_iter()
        .map(|summary| summary.descriptor.id)
        .collect();
    assert_eq!(ids, vec!["a", "b", "c"]);
    manager.mark_disabled("c").expect("disable c");
    assert_eq!(manager.active_backend().as_deref(), Some("a"));
    manager.mark_disabled("a").expect("disable a");
    manager.mark_disabled("b").expect("disable b");
    assert_eq!(manager.active_backend(), None);
    assert!(!manager.is_enabled("b"));
    assert_eq!(
        manager.events().last(),
        Some(&RuntimeEvent::BackendDisabled("b".to_owned()))
    );
}

#[test]
fn mock_backend_generates_one_final_chunk() {
    let request = oid::runtime::GenerationRequest {
        request_id: "r-1".to_owned(),
        model_id: "m".to_owned(),
        input: "hello".to_owned(),
    };
    let chunks = MockBackend.generate_stream(&request).expect("mock generates");
    assert_eq!(chunks.len(), 1);
    assert_eq!(chunks[0].text, "Mock generation is not AI inference.");
    assert!(chunks[0].done);
    assert_eq!(MockBackend.descriptor().id, "mock");
}

struct NoFile;

impl RegistryStore for NoFile {
    fn write(&self, _path: &str, _contents: &str) -> Result<(), RuntimeError> {
        Ok(())
    }
}

struct RecordingFile {
    contents: Mutex<String>,
}

impl RegistryStore for RecordingFile {
    fn write(&self, _path: &str, contents: &str) -> Result<(), RuntimeError> {
        *self.contents.lock().expect("contents lock") = contents.to_owned();
        Ok(())
    }
}

fn model() -> ModelMetadata {
    ModelMetadata {
        id: "demo".to_owned(),
        name: "Demo Model".to_owned(),
        family: "demo".to_owned(),
        backend: "mock".to_owned(),
        quantization: "none".to_owned(),
        context_window: 1024,
        memory_requirement_mb: 512,
        capabilities: vec!["text".to_owned()],
        status: ModelStatus::Registered,
        checksum: Some("abc".to_owned()),
        location: "/models/demo".to_owned(),
    }
}

#[test]
fn registers_inspects_and_removes_metadata() {
    let mut registry = ModelRegistry::in_memory(EventLog::new());
    registry.register(model(), &NoFile).expect("register");
    assert_eq!(
        registry.inspect("demo").expect("inspect").name,
        "Demo Model"
    );
    registry.remove("demo", &NoFile).expect("remove");
    assert!(matches!(
        registry.events().first(),
        Some(RuntimeEvent::ModelRegistered(_))
    ));
    assert!(registry.list().is_empty());
}

#[test]
fn persists_metadata_across_registry_instances() {
    let store = RecordingFile {
        contents: Mutex::new(String::new()),
    };
    let mut registry =
        ModelRegistry::open("registry.db", None, EventLog::new()).expect("open registry");
    registry.register(model(), &store).expect("persist model");
    let written = store.contents.lock().expect("contents lock").clone();
    let reopened =
        ModelRegistry::open("registry.db", Some(&written), EventLog::new()).expect("reopen registry");
    assert_eq!(
        reopened.inspect("demo").expect("persisted model").id,
        "demo"
    );
}

#[test]
fn registry_refuses_duplicates_and_unknown_models() {
    let mut registry = ModelRegistry::in_memory(EventLog::new());
    registry.register(model(), &NoFile).expect("register");
    assert_eq!(
        registry.register(model(), &NoFile),
        Err(RuntimeError::ModelAlreadyRegistered("demo".to_owned()))
    );
    assert_eq!(
        registry.remove("missing", &NoFile).map(|m| m.id),
        Err(RuntimeError::ModelNotFound("missing".to_owned()))
    );
    registry
        .set_status("demo", ModelStatus::Loaded, &NoFile)
        .expect("status");
    assert_eq!(
        registry.events().last(),
        Some(&RuntimeEvent::ModelLoaded("demo".to_owned()))
    );
    assert_eq!(registry.inspect("demo").expect("model").status, ModelStatus::Loaded);
}

#[test]
fn reads_cpu_model_and_distinct_physical_cores() {
    let cpuinfo = "processor\t: 0\nmodel name\t: Test CPU\nphysical id\t: 0\ncore id\t\t: 0\n\nprocessor\t: 1\nmodel name\t: Other CPU\nphysical id\t: 0\ncore id\t\t: 1\n\nprocessor\t: 2\nphysical id\t: 0\ncore id\t\t: 1\n";
    let (cpu, cores) = parse_cpu_details(cpuinfo);
    assert_eq!(cpu, "Test CPU");
    assert_eq!(cores, Some(2));
    let (cpu, cores) = parse_cpu_details("flags\t: sse2\n");
    assert_eq!(cpu, "unknown CPU");
    assert_eq!(cores, None);
}

#[test]
fn reads_total_and_available_memory_in_bytes() {
    let meminfo = "MemTotal:       2048 kB\nMemFree:        1024 kB\nMemAvailable:   1536 kB\nbroken\n";
    assert_eq!(
        parse_memory_details(meminfo),
        (Some(2048 * 1024), Some(1536 * 1024))
    );
    assert_eq!(
        parse_memory_details("MemTotal: 18446744073709551615 kB\n"),
        (Some(u64::MAX), None)
    );
}

#[test]
fn loading_admits_one_model_and_unloading_frees_the_slot() {
    let mut registry = ModelRegistry::in_memory(EventLog::new());
    registry.register(model(), &NoFile).expect("register");
    let mut loaded = None;
    let mut bus = EventLog::new();
    assert_eq!(
        model_load(&mut registry, &mut loaded, &mut bus, &MockBackend, &NoFile, "missing"),
        Err(RuntimeError::ModelNotFound("missing".to_owned()))
    );
    assert!(bus.events().is_empty());
    model_load(&mut registry, &mut loaded, &mut bus, &MockBackend, &NoFile, "demo").expect("load");
    assert_eq!(loaded.as_deref(), Some("demo"));
    assert_eq!(registry.inspect("demo").expect("model").status, ModelStatus::Loaded);
    assert_eq!(bus.events(), [RuntimeEvent::ModelLoading("demo".to_owned())]);
    assert_eq!(
        model_load(&mut registry, &mut loaded, &mut bus, &MockBackend, &NoFile, "demo"),
        Err(RuntimeError::ModelLifecycle("only one model may be loaded".to_owned()))
    );
    model_unload(&mut registry, &mut loaded, &mut bus, &MockBackend, &NoFile, "demo").expect("unload");
    assert_eq!(loaded, None);
    assert_eq!(registry.inspect("demo").expect("model").status, ModelStatus::Registered);
    assert_eq!(bus.events().last(), Some(&RuntimeEvent::ModelUnloading("demo".to_owned())));
}

#[test]
fn a_failed_load_marks_the_model_failed_and_reports_the_error() {
    struct Refusing;
    impl Backend for Refusing {
        fn descriptor(&self) -> oid::runtime::BackendDescriptor {
            MockBackend.descriptor()
        }
        fn initialize(&self) -> Result<(), RuntimeError> {
            Ok(())
        }
        fn shutdown(&self) -> Result<(), RuntimeError> {
            Ok(())
        }
        fn health(&self) -> oid::runtime::BackendHealth {
            MockBackend.health()
        }
        fn list_models(&self) -> Result<Vec<String>, RuntimeError> {
            Ok(Vec::new())
        }
        fn load_model(&self, _model_id: &str) -> Result<(), RuntimeError> {
            Err(RuntimeError::NativeBackend("out of memory".to_owned()))
        }
        fn unload_model(&self, _model_id: &str) -> Result<(), RuntimeError> {
            Ok(())
        }
        fn generate_stream(
            &self,
            request: &oid::runtime::GenerationRequest,
        ) -> Result<Vec<oid::runtime::StreamChunk>, RuntimeError> {
            MockBackend.generate_stream(request)
        }
        fn cancel_generation(&self, _request_id: &str) -> Result<(), RuntimeError> {
            Ok(())
        }
        fn tool_support(&self) -> oid::runtime::ToolSupport {
            MockBackend.tool_support()
        }
    }
    let mut registry = ModelRegistry::in_memory(EventLog::new());
    registry.register(model(), &NoFile).expect("register");
    let mut loaded = None;
    let mut bus = EventLog::new();
    let error = model_load(&mut registry, &mut loaded, &mut bus, &Refusing, &NoFile, "demo")
        .expect_err("load fails");
    assert_eq!(error, RuntimeError::NativeBackend("out of memory".to_owned()));
    assert_eq!(loaded, None);
    assert_eq!(registry.inspect("demo").expect("model").status, ModelStatus::Failed);
    assert!(matches!(bus.events().last(), Some(RuntimeEvent::ErrorRaised(_))));
}
