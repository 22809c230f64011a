//! Stand-ins for the editor, which return text without asking anyone.
use vstd::prelude::*;

verus! {

/// Returns the seed text followed by `Test content`.
pub fn test_string_getter(template: String) -> (r: Result<String, std::io::Error>)
    ensures
        r matches Ok(s) && s@ == template@ + "Test content"@,
{
    let mut output = template;
    output.append("Test content");
    Ok(output)
}

/// Returns no text at all.
pub fn test_empty_string_getter(_template: String) -> (r: Result<String, std::io::Error>)
    ensures
        r matches Ok(s) && s@.len() == 0,
{
    Ok(String::new())
}

} // verus!
