# openssl (CMS bindings)

Bindings to libcrypto's CMS (S/MIME) routines, split in two:

- `src/` is the verified library (Verus). It holds what the bindings decide around the
  C calls: the CMS option flags (`cms::CMSOptions`, with its set laws), the checks on the
  status codes and pointers that libcrypto returns (`cvt`, `cvt_p`), what each CMS
  operation returns for what libcrypto reported (`cms::output_on_success`,
  `cms::verify_result`, `cms::der_buffer`, `cms::der_input_len`, `bio::mem_buf_len`),
  and the decision of the pre-1.1.0 locking callback (`locking::lock_step`).
- `app/` declares the C interface and makes the calls: `CmsContentInfo` with
  `decrypt`, `to_der`, `to_pem`, `smime_read_cms`, `from_der`, `from_pem`, `sign`,
  `encrypt` and `verify`, the memory BIOs, the error queue, and `init`.
