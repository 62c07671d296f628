use wasm_counter::counter::{native_sum, CounterState};
use wasm_counter::guest::guest_module;
use wasmtime::{Caller, Config, Engine, Func, Instance, Memory, MemoryType, Module, Store, Val};

fn run_guest(max: i64) -> i64 {
    let mut config = Config::default();
    config.memory_reservation(1 << 20);
    config.memory_guard_size(0);
    config.memory_reservation_for_growth(0);
    let engine = Engine::new(&config).unwrap();
    let module = Module::new(&engine, guest_module().unwrap()).unwrap();
    let mut store = Store::new(&engine, CounterState::new(max));
    let memory = Memory::new(&mut store, MemoryType::new(1, None)).unwrap();
    let next_value = Func::wrap(&mut store, |mut caller: Caller<'_, CounterState>| -> i64 {
        caller.data_mut().next_value()
    });
    let instance = Instance::new(&mut store, &module, &[memory.into(), next_value.into()]).unwrap();
    let sum = instance.get_func(&mut store, "sum").unwrap();
    let mut results = vec![Val::I64(0)];
    sum.call(&mut store, &[], &mut results).unwrap();
    results[0].unwrap_i64()
}

#[test]
fn guest_sum_matches_native_sum() {
    for max in [0i64, 1, 10, 1000] {
        assert_eq!(Some(run_guest(max)), native_sum(max));
    }
    assert_eq!(run_guest(1000), 499_500);
}
