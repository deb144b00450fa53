//! The landing page.
use vstd::prelude::*;

verus! {

/// The page served when the landing page cannot be read.
pub open spec fn fallback_text() -> Seq<char> {
    "
<!DOCTYPE html>
<html>
<head>
    <title>AI Chat - File Not Found</title>
</head>
<body>
    <h1>Welcome to AI Chat</h1>
    <p>Please ensure static/index.html exists in your project directory.</p>
    <p>The chat API is available at <code>/api/chat</code></p>
</body>
</html>
            "@
}

/// The fallback page.
pub fn fallback_page() -> (r: String)
    ensures
        r@ == fallback_text(),
{
    String::from_str(
        "
<!DOCTYPE html>
<html>
<head>
    <title>AI Chat - File Not Found</title>
</head>
<body>
    <h1>Welcome to AI Chat</h1>
    <p>Please ensure static/index.html exists in your project directory.</p>
    <p>The chat API is available at <code>/api/chat</code></p>
</body>
</html>
            ",
    )
}

/// The page to serve: the stored page where it could be read, else the
/// fallback.
pub fn home_page(stored: Option<String>) -> (r: String)
    ensures
        r@ == match stored {
            Some(p) => p@,
            None => fallback_text(),
        },
{
    match stored {
        Some(p) => p,
        None => fallback_page(),
    }
}

} // verus!
