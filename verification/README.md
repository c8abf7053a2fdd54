# bcid

A downloader of Book.io cover images: it checks a Cardano policy id against
the book.io collections API, lists the policy's assets through BlockFrost,
finds each asset's high-resolution cover in its on-chain metadata, and
downloads the covers from IPFS, resuming or skipping partial and complete
downloads.

- `src/` is the verified library. It holds every decision of the downloader:
  the set of valid collection ids (`collections`, `client`), the search for the
  high-resolution cover (`json`, `metadata`), file extensions (`media`), IPFS
  paths (`cid`), the state machine that downloads the covers of a policy
  (`covers`), resuming and checking single downloads and gathering their
  errors (`download`), and the options and messages of the command (`cli`,
  `decimal`).
- `app/` is the program around it: the network requests, files, progress
  bars and the command line parsing that drive the library.
- `tests/` exercises the library on concrete values.
