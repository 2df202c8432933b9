use vstd::prelude::*;

verus! {

/// The page served at `/`: a small form that drives the user endpoints.
pub const INDEX_HTML: &'static str = r#"<!DOCTYPE html>
<html>
<head>
<meta charset="utf-8">
<title>Users</title>
</head>
<body>
<h1>Users</h1>
<form id="user">
<input name="id" type="number" min="0" placeholder="id" required>
<input name="name" placeholder="name">
<input name="email" placeholder="email">
<input name="password" type="password" placeholder="password">
<button type="button" data-method="POST">Create</button>
<button type="button" data-method="PUT">Update</button>
<button type="button" data-method="DELETE">Delete</button>
</form>
<pre id="out"></pre>
<script>
const form = document.getElementById("user");
const out = document.getElementById("out");
for (const button of form.querySelectorAll("button")) {
  button.addEventListener("click", async () => {
    const method = button.dataset.method;
    const f = new FormData(form);
    const user = {
      id: Number(f.get("id")),
      name: f.get("name"),
      email: f.get("email"),
      password: f.get("password"),
    };
    const url = method === "POST" ? "/users" : "/users/" + user.id;
    const init = { method, headers: { "content-type": "application/json" } };
    if (method !== "DELETE") {
      init.body = JSON.stringify(user);
    }
    const res = await fetch(url, init);
    out.textContent = res.status + " " + (await res.text());
  });
}
</script>
</body>
</html>
"#;

/// The static page, the same text on every call.
pub fn index_page() -> (r: &'static str)
    ensures
        r@ == INDEX_HTML@,
{
    INDEX_HTML
}

} // verus!
