# embassy_dlyb

Verified driver logic for the STM32 SDMMC delay blocks (DLYB), used to tune
the sampling point for SDR50 / SDR104, plus aligned slice views of
`aligned::Aligned` arrays.

- `src/dlyb.rs`: the `CFG` fields the driver sets (`Dlyb::enable_lock`,
  `Dlyb::disable`, `Dlyb::set_tap`) and the bounded wait on a `STATUS` flag
  (`StatusPoll::step`), with the proof that a wait ends in `Ok` exactly when
  the flag is seen within `POLL_LIMIT` reads and in `Err(Timeout)` otherwise.
- `src/instance.rs`: which delay block and which RCC reset field belong to
  each SDMMC controller.
- `src/aligned_slice.rs`: `AsAlignedSlice` / `AsMutAlignedSlice` for aligned
  arrays.
- `app/lib.rs`: runs the procedures against the registers, through traits
  that the board support code implements.
