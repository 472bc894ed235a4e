use vstd::prelude::*;

verus! {

/// The functions of the library's C API that the generated bindings
/// surface; any other symbol of the headers is left out, unless one of
/// these needs it.
pub open spec fn allowed_functions() -> Seq<Seq<char>> {
    seq![
        "cef_execute_process"@,
        "cef_initialize"@,
        "cef_do_message_loop_work"@,
        "cef_browser_host_create_browser"@,
        "cef_browser_host_create_browser_sync"@,
        "cef_process_message_create"@,
        "cef_string_utf8_to_utf16"@,
        "cef_string_utf16_to_utf8"@,
        "cef_v8value_create_undefined"@,
        "cef_v8value_create_null"@,
        "cef_v8value_create_bool"@,
        "cef_v8value_create_int"@,
        "cef_v8value_create_uint"@,
        "cef_v8value_create_double"@,
        "cef_v8value_create_date"@,
        "cef_v8value_create_string"@,
        "cef_v8value_create_object"@,
        "cef_v8value_create_array"@,
        "cef_v8value_create_array_buffer"@,
        "cef_v8value_create_function"@,
    ]
}

/// The names of the functions that the generated bindings surface:
/// process start-up, the message loop, browser creation, string conversion
/// and the constructors of script values.
pub fn binding_allow_list() -> (r: Vec<String>)
    ensures
        r@.map_values(|s: String| s@) == allowed_functions(),
{
    let r = vec![
        String::from_str("cef_execute_process"),
        String::from_str("cef_initialize"),
        String::from_str("cef_do_message_loop_work"),
        String::from_str("cef_browser_host_create_browser"),
        String::from_str("cef_browser_host_create_browser_sync"),
        String::from_str("cef_process_message_create"),
        String::from_str("cef_string_utf8_to_utf16"),
        String::from_str("cef_string_utf16_to_utf8"),
        String::from_str("cef_v8value_create_undefined"),
        String::from_str("cef_v8value_create_null"),
        String::from_str("cef_v8value_create_bool"),
        String::from_str("cef_v8value_create_int"),
        String::from_str("cef_v8value_create_uint"),
        String::from_str("cef_v8value_create_double"),
        String::from_str("cef_v8value_create_date"),
        String::from_str("cef_v8value_create_string"),
        String::from_str("cef_v8value_create_object"),
        String::from_str("cef_v8value_create_array"),
        String::from_str("cef_v8value_create_array_buffer"),
        String::from_str("cef_v8value_create_function"),
    ];
    assert(r@.map_values(|s: String| s@) =~= allowed_functions());
    r
}

} // verus!
