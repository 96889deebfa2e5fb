use colossus_runtime::plugin_variables::expand_plugin_variables;

#[test]
fn expansion_splits_at_variables_and_keeps_other_text() {
    assert_eq!(expand_plugin_variables("a ${OTHER} $ ${PLUGIN_", "/r", "/d"), "a ${OTHER} $ ${PLUGIN_");
    let parts = ["${PLUGIN_DATA}x$", "", "${PLUGIN_ROOT"];
    for before in parts {
        for after in parts {
            let whole = expand_plugin_variables(&format!("{before}${{PLUGIN_ROOT}}{after}"), "/r", "/d");
            let split = [
                expand_plugin_variables(before, "/r", "/d"),
                "/r".to_owned(),
                expand_plugin_variables(after, "/r", "/d"),
            ];
            assert_eq!(whole, split.concat());
        }
    }
}

#[test]
fn plugin_variable_expansion_is_exact_and_single_pass() {
    let root = "/plugins/root-${PLUGIN_DATA}";
    let data = "/plugins/data";

    assert_eq!(
        expand_plugin_variables(
            "${PLUGIN_ROOT}/bin:${PLUGIN_DATA}:${PLUGIN_ROOTED}:${PLUGIN_ROOT}",
            root,
            data,
        ),
        "/plugins/root-${PLUGIN_DATA}/bin:/plugins/data:${PLUGIN_ROOTED}:/plugins/root-${PLUGIN_DATA}"
    );
}
