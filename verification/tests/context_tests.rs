use context_stack::Context;
use context_stack::ContextParent;
use context_stack::ContextStack;
use context_stack::Has;
use context_stack::names::FirstName;
use context_stack::names::LastName;
use context_stack::names::full_name;
use context_stack::registry::Registry;

trait HasFirstName<Proof> {
    fn first_name(&self) -> &String;
    fn set_first_name<S: ToString>(&mut self, name: S);
}

impl<T, Proof> HasFirstName<Proof> for T
where
    T: Has<FirstName, Proof>,
{
    fn first_name(&self) -> &String {
        &self.get_unit().name
    }

    fn set_first_name<S: ToString>(&mut self, name: S) {
        self.get_unit_mut().name = name.to_string();
    }
}

trait HasLastName<Proof> {
    fn last_name(&self) -> &String;
}

impl<T, Proof> HasLastName<Proof> for T
where
    T: Has<LastName, Proof>,
{
    fn last_name(&self) -> &String {
        &self.get_unit().name
    }
}

#[test]
fn can_add_first_name() {
    let ctx = Context::root();
    let ctx = FirstName::new(ctx, "Rusty".to_string());
    let mut ctx = ctx.seal();
    assert_eq!(ctx.first_name(), "Rusty");
    ctx.set_first_name("Dusty");
    assert_eq!(ctx.first_name(), "Dusty");
}

#[test]
fn can_add_last_name() {
    let ctx = Context::root();
    let ctx = LastName::new(ctx, "McRustface".to_string());
    let ctx = ctx.seal();
    assert_eq!(ctx.last_name(), "McRustface");
}

#[test]
fn can_add_both_names() {
    let ctx = Context::root();
    let ctx = FirstName::new(ctx, "Rusty".to_string());
    let ctx = LastName::new(ctx, "McRustface".to_string());
    let ctx = ctx.seal();
    assert_eq!(ctx.first_name(), "Rusty");
    assert_eq!(ctx.last_name(), "McRustface");
}

#[test]
fn can_get_full_name() {
    let ctx = Context::root();
    let ctx = FirstName::new(ctx, "Rusty".to_string());
    let ctx = LastName::new(ctx, "McRustface".to_string());
    let ctx = ctx.seal();
    assert_eq!(full_name(&ctx), "Rusty McRustface");
}

#[test]
fn can_register_first_name() {
    let ctx = Context::root();
    let ctx = FirstName::new(ctx, "Rusty".to_string());
    let ctx = ctx.seal();
    let mut registry = Vec::new();
    ctx.register(&mut registry);
    assert_eq!(registry, vec!["FirstName"]);
}

#[test]
fn can_register_last_name() {
    let ctx = Context::root();
    let ctx = LastName::new(ctx, "McRustface".to_string());
    let ctx = ctx.seal();
    let mut registry = Vec::new();
    ctx.register(&mut registry);
    assert_eq!(registry, vec!["LastName"]);
}

#[test]
fn can_register_both_names() {
    let ctx = Context::root();
    let ctx = FirstName::new(ctx, "Rusty".to_string());
    let ctx = LastName::new(ctx, "McRustface".to_string());
    let ctx = ctx.seal();
    let mut registry = Vec::new();
    ctx.register(&mut registry);
    registry.sort();
    assert_eq!(registry, vec!["FirstName", "LastName"]);
}

#[test]
fn get_returns_unit_just_attached() {
    let ctx = Context::root();
    let ctx = FirstName::new(ctx, "Rusty".to_string());
    assert_eq!(ctx.first_name(), "Rusty");
    let ctx = LastName::new(ctx, "McRustface".to_string());
    assert_eq!(ctx.last_name(), "McRustface");
}

#[test]
fn unrelated_attach_preserves_lookup() {
    let ctx = Context::root();
    let ctx = FirstName::new(ctx, "Rusty".to_string());
    let before = ctx.first_name().clone();
    let ctx = LastName::new(ctx, "McRustface".to_string());
    assert_eq!(ctx.first_name(), &before);
}

#[test]
fn mutation_is_isolated() {
    let ctx = Context::root();
    let ctx = FirstName::new(ctx, "Rusty".to_string());
    let ctx = LastName::new(ctx, "McRustface".to_string());
    let mut ctx = ctx.seal();
    ctx.set_first_name("Dusty");
    assert_eq!(ctx.first_name(), "Dusty");
    assert_eq!(ctx.last_name(), "McRustface");
}

#[test]
fn register_visits_outermost_first() {
    let ctx = Context::root();
    let ctx = FirstName::new(ctx, "Rusty".to_string());
    let ctx = LastName::new(ctx, "McRustface".to_string());
    let ctx = ctx.seal();
    let mut registry = Vec::new();
    ctx.register(&mut registry);
    assert_eq!(registry, vec!["LastName", "FirstName"]);
}

#[test]
fn register_empty_visits_nothing() {
    let root = Context::root();
    let ctx = root.seal();
    let mut registry: Vec<String> = Vec::new();
    ctx.register(&mut registry);
    assert_eq!(registry, Vec::<String>::new());
}

#[test]
fn shadowing_resolves_to_outermost() {
    let ctx = Context::root();
    let ctx = FirstName::new(ctx, "Rusty".to_string());
    let ctx = FirstName::new(ctx, "Dusty".to_string());
    // With two units of the same type the proof token cannot be inferred;
    // the base token selects the outermost, most recently attached one.
    let outermost: &FirstName = Has::<FirstName, ()>::get_unit(&ctx);
    assert_eq!(outermost.name, "Dusty");
    // The earlier unit is still reachable, but only by naming its slot.
    let shadowed: &FirstName =
        Has::<FirstName, context_stack::Next<()>>::get_unit(&ctx);
    assert_eq!(shadowed.name, "Rusty");
}

#[test]
fn stack_exposes_sealed_interior() {
    let ctx = Context::root();
    let ctx = FirstName::new(ctx, "Rusty".to_string());
    let ctx = ctx.seal();
    let interior: &ContextStack<FirstName, ()> = ctx.stack();
    assert_eq!(interior.head.name, "Rusty");
}
