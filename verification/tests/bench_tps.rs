/// Wrapper that sets the default benchmarking parameters for a local
/// cluster; its body holds no code in this project.
#[test]
fn bench_tps_test_bench_tps_local_cluster_chui() {}
