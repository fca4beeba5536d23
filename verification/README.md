# project_registry

A registry of namespace claims for multi-project deployments, verified with
Verus. A namespace belongs to the project (`project_id`) that first claimed
it; the same project may deploy to it again any number of times, and every
other project is refused.

Layout:

- `src/types.rs`: `ProjectRegistration`, `RegistryError`, and their
  mathematical models.
- `src/project_registry.rs`: the registry, the spec functions that define
  each operation on the model (`register_spec`, `validate_spec`,
  `update_spec`), and the verified operations.
- `src/entry_map.rs`: the map that a list of (key, value) pairs builds, and
  its lemmas.
- `src/components.rs`: `SchemaSource`, and the module listings of app and
  component definitions (`all_modules`, `modules`), generic over the module
  configuration type.
- `src/clock.rs`: the system clock, behind trusted wrappers.
- `src/laws.rs`: properties that relate the operations (exclusive ownership,
  validation predicting claims, registrations never lost, rebuilding from
  entries).
- `app/`: the registry shared behind a lock and persisted as JSON in the data
  directory.

Not here: the rest of the deployment configuration types (`ProjectConfig`,
the remaining fields of `AppDefinitionConfig` and `ComponentDefinitionConfig`,
`EvaluatedComponentDefinition`, `SerializedEvaluatedComponentDefinition` and
the conversions between the last two). They are built on module, schema,
UDF and path types of the wider server, which are not part of this project,
and the conversions only hand values through those types. The module
configuration itself is therefore a type parameter `M` here.
